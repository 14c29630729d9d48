use tmux_agent_sidebar::adapter::pi::PiAdapter;
use tmux_agent_sidebar::adapter::smelt::{normalize_tool_name, SmeltAdapter};
use tmux_agent_sidebar::event::{AgentEvent, EventAdapter};
use tmux_agent_sidebar::json::{JsonMap, JsonValue};
use tmux_agent_sidebar::tmux::SMELT_AGENT;

fn s(text: &str) -> JsonValue {
    JsonValue::Str(text.to_string())
}

fn obj(entries: Vec<(&str, JsonValue)>) -> JsonValue {
    let mut map = JsonMap::new();
    for (key, value) in entries {
        map.insert(key.to_string(), value);
    }
    JsonValue::Object(map)
}

fn text<'a>(value: &'a JsonValue, key: &str) -> Option<&'a str> {
    value.get(key).and_then(|v| v.as_str())
}

#[test]
fn session_start_sets_smelt_agent() {
    let event = SmeltAdapter
        .parse(
            "session-start",
            &obj(vec![("cwd", s("/repo")), ("session_id", s("s1")), ("source", s("startup"))]),
        )
        .unwrap();
    assert_eq!(
        event,
        AgentEvent::SessionStart {
            agent: SMELT_AGENT.into(),
            cwd: "/repo".into(),
            permission_mode: "".into(),
            source: "startup".into(),
            worktree: None,
            agent_id: None,
            session_id: Some("s1".into()),
        }
    );
}

#[test]
fn smelt_activity_log_normalizes_bash() {
    let event = SmeltAdapter
        .parse(
            "activity-log",
            &obj(vec![
                ("tool_name", s("bash")),
                ("tool_input", obj(vec![("command", s("cargo test"))])),
                ("tool_response", obj(vec![("stdout", s("ok"))])),
            ]),
        )
        .unwrap();
    match event {
        AgentEvent::ActivityLog { tool_name, tool_input, tool_response } => {
            assert_eq!(tool_name, "Bash");
            assert_eq!(text(&tool_input, "command"), Some("cargo test"));
            assert_eq!(text(&tool_response, "stdout"), Some("ok"));
        }
        other => panic!("expected ActivityLog, got {other:?}"),
    }
}

#[test]
fn activity_log_normalizes_read_file() {
    let event = SmeltAdapter
        .parse(
            "activity-log",
            &obj(vec![
                ("tool_name", s("read_file")),
                ("tool_input", obj(vec![("path", s("/repo/src/main.rs"))])),
            ]),
        )
        .unwrap();
    match event {
        AgentEvent::ActivityLog { tool_name, tool_input, .. } => {
            assert_eq!(tool_name, "Read");
            assert_eq!(text(&tool_input, "path"), Some("/repo/src/main.rs"));
            assert_eq!(text(&tool_input, "file_path"), Some("/repo/src/main.rs"));
        }
        other => panic!("expected ActivityLog, got {other:?}"),
    }
}

#[test]
fn activity_log_unrecognized_tool_passes_through() {
    let event = SmeltAdapter
        .parse(
            "activity-log",
            &obj(vec![
                ("tool_name", s("custom_tool")),
                ("tool_input", obj(vec![("key", s("val"))])),
            ]),
        )
        .unwrap();
    match event {
        AgentEvent::ActivityLog { tool_name, tool_input, .. } => {
            assert_eq!(tool_name, "custom_tool");
            assert_eq!(text(&tool_input, "key"), Some("val"));
        }
        other => panic!("expected ActivityLog, got {other:?}"),
    }
}

#[test]
fn activity_log_empty_tool_name_returns_none() {
    assert!(SmeltAdapter.parse("activity-log", &obj(vec![("tool_name", s(""))])).is_none());
}

#[test]
fn smelt_session_end_is_supported() {
    assert_eq!(
        SmeltAdapter.parse("session-end", &obj(vec![("end_reason", s("quit"))])),
        Some(AgentEvent::SessionEnd { end_reason: "quit".into() })
    );
}

#[test]
fn notification_is_supported() {
    let event = SmeltAdapter
        .parse(
            "notification",
            &obj(vec![("cwd", s("/repo")), ("wait_reason", s("permission")), ("session_id", s("s1"))]),
        )
        .unwrap();
    assert_eq!(
        event,
        AgentEvent::Notification {
            agent: SMELT_AGENT.into(),
            cwd: "/repo".into(),
            permission_mode: "".into(),
            wait_reason: "permission".into(),
            meta_only: false,
            worktree: None,
            agent_id: None,
            session_id: Some("s1".into()),
        }
    );
}

#[test]
fn stop_is_supported() {
    let event = SmeltAdapter
        .parse(
            "stop",
            &obj(vec![("cwd", s("/repo")), ("last_message", s("done")), ("session_id", s("s1"))]),
        )
        .unwrap();
    assert_eq!(
        event,
        AgentEvent::Stop {
            agent: SMELT_AGENT.into(),
            cwd: "/repo".into(),
            permission_mode: "".into(),
            last_message: "done".into(),
            response: None,
            worktree: None,
            agent_id: None,
            session_id: Some("s1".into()),
        }
    );
}

#[test]
fn stop_failure_is_supported() {
    let event = SmeltAdapter
        .parse("stop-failure", &obj(vec![("cwd", s("/repo")), ("error", s("API error"))]))
        .unwrap();
    assert_eq!(
        event,
        AgentEvent::StopFailure {
            agent: SMELT_AGENT.into(),
            cwd: "/repo".into(),
            permission_mode: "".into(),
            error: "API error".into(),
            worktree: None,
            agent_id: None,
            session_id: None,
        }
    );
}

#[test]
fn unknown_event_returns_none() {
    assert!(SmeltAdapter.parse("unknown-event", &obj(vec![])).is_none());
}

#[test]
fn smelt_agent_name_is_smelt() {
    assert_eq!(SMELT_AGENT, "smelt");
}

#[test]
fn smelt_normalizes_each_builtin_tool() {
    let table = [
        ("bash", "Bash"),
        ("read_file", "Read"),
        ("read", "Read"),
        ("write_file", "Write"),
        ("write", "Write"),
        ("edit_file", "Edit"),
        ("edit", "Edit"),
        ("grep", "Grep"),
        ("glob", "Glob"),
        ("find", "Glob"),
        ("ls", "Glob"),
        ("web_fetch", "WebFetch"),
        ("web_search", "WebSearch"),
        ("tool_search", "ToolSearch"),
        ("skill", "Skill"),
        ("notebook_edit", "NotebookEdit"),
        ("notebook_edit_async", "NotebookEdit"),
        ("ask_user_question", "AskUserQuestion"),
        ("todo_write", "TodoWrite"),
        ("task_create", "TaskCreate"),
        ("task_update", "TaskUpdate"),
        ("task_get", "TaskGet"),
        ("task_stop", "TaskStop"),
        ("task_output", "TaskOutput"),
    ];
    for (raw, canonical) in table {
        assert_eq!(normalize_tool_name(raw), canonical);
    }
}

#[test]
fn smelt_tool_name_normalization_is_idempotent() {
    for raw in ["bash", "read_file", "glob", "task_output", "notebook_edit_async", "x"] {
        let once = normalize_tool_name(raw);
        assert_eq!(normalize_tool_name(&once), once);
    }
}

#[test]
fn smelt_agrees_with_pi_on_pi_tools() {
    for raw in ["bash", "read", "write", "edit", "grep", "find", "ls"] {
        assert_eq!(
            tmux_agent_sidebar::adapter::pi::normalize_tool_name(raw),
            normalize_tool_name(raw)
        );
        let payload = obj(vec![
            ("tool_name", s(raw)),
            ("tool_input", obj(vec![("path", s("/a"))])),
        ]);
        assert_eq!(
            PiAdapter.parse("activity-log", &payload),
            SmeltAdapter.parse("activity-log", &payload)
        );
    }
}

#[test]
fn smelt_lifecycle_events_differ_from_pi_only_by_agent() {
    let payload = obj(vec![("cwd", s("/c")), ("prompt", s("p")), ("session_id", s("id"))]);
    let pi = PiAdapter.parse("user-prompt-submit", &payload).unwrap();
    let smelt = SmeltAdapter.parse("user-prompt-submit", &payload).unwrap();
    match (pi, smelt) {
        (
            AgentEvent::UserPromptSubmit { agent: a1, cwd: c1, prompt: p1, session_id: i1, .. },
            AgentEvent::UserPromptSubmit { agent: a2, cwd: c2, prompt: p2, session_id: i2, .. },
        ) => {
            assert_eq!(a1, "pi");
            assert_eq!(a2, "smelt");
            assert_eq!((c1, p1, i1), (c2, p2, i2));
        }
        other => panic!("unexpected events {other:?}"),
    }
}

#[test]
fn smelt_write_file_keeps_existing_file_path() {
    let event = SmeltAdapter
        .parse(
            "activity-log",
            &obj(vec![
                ("tool_name", s("write_file")),
                ("tool_input", obj(vec![("path", s("/new")), ("file_path", s("/old"))])),
            ]),
        )
        .unwrap();
    match event {
        AgentEvent::ActivityLog { tool_name, tool_input, .. } => {
            assert_eq!(tool_name, "Write");
            assert_eq!(text(&tool_input, "file_path"), Some("/old"));
            assert_eq!(text(&tool_input, "path"), Some("/new"));
        }
        other => panic!("expected ActivityLog, got {other:?}"),
    }
}
