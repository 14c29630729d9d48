use tmux_agent_sidebar::adapter::pi::{normalize_tool_name, PiAdapter};
use tmux_agent_sidebar::event::{AgentEvent, EventAdapter};
use tmux_agent_sidebar::json::{JsonMap, JsonValue};
use tmux_agent_sidebar::tmux::PI_AGENT;

fn s(text: &str) -> JsonValue {
    JsonValue::Str(text.to_string())
}

fn obj(entries: Vec<(&str, JsonValue)>) -> JsonValue {
    let mut map = JsonMap::new();
    for (key, value) in entries {
        map.insert(key.to_string(), value);
    }
    JsonValue::Object(map)
}

fn text<'a>(value: &'a JsonValue, key: &str) -> Option<&'a str> {
    value.get(key).and_then(|v| v.as_str())
}

#[test]
fn session_start_sets_pi_agent() {
    let event = PiAdapter
        .parse(
            "session-start",
            &obj(vec![("cwd", s("/repo")), ("session_id", s("s1")), ("source", s("startup"))]),
        )
        .unwrap();
    assert_eq!(
        event,
        AgentEvent::SessionStart {
            agent: PI_AGENT.into(),
            cwd: "/repo".into(),
            permission_mode: "".into(),
            source: "startup".into(),
            worktree: None,
            agent_id: None,
            session_id: Some("s1".into()),
        }
    );
}

#[test]
fn pi_activity_log_normalizes_bash() {
    let event = PiAdapter
        .parse(
            "activity-log",
            &obj(vec![
                ("tool_name", s("bash")),
                ("tool_input", obj(vec![("command", s("cargo test"))])),
                ("tool_response", obj(vec![("stdout", s("ok"))])),
            ]),
        )
        .unwrap();
    match event {
        AgentEvent::ActivityLog { tool_name, tool_input, tool_response } => {
            assert_eq!(tool_name, "Bash");
            assert_eq!(text(&tool_input, "command"), Some("cargo test"));
            assert_eq!(text(&tool_response, "stdout"), Some("ok"));
        }
        other => panic!("expected ActivityLog, got {other:?}"),
    }
}

#[test]
fn activity_log_maps_path_to_file_path() {
    let event = PiAdapter
        .parse(
            "activity-log",
            &obj(vec![
                ("tool_name", s("read")),
                ("tool_input", obj(vec![("path", s("/repo/src/main.rs"))])),
            ]),
        )
        .unwrap();
    match event {
        AgentEvent::ActivityLog { tool_name, tool_input, .. } => {
            assert_eq!(tool_name, "Read");
            assert_eq!(text(&tool_input, "path"), Some("/repo/src/main.rs"));
            assert_eq!(text(&tool_input, "file_path"), Some("/repo/src/main.rs"));
        }
        other => panic!("expected ActivityLog, got {other:?}"),
    }
}

#[test]
fn pi_session_end_is_supported() {
    assert_eq!(
        PiAdapter.parse("session-end", &obj(vec![("end_reason", s("quit"))])),
        Some(AgentEvent::SessionEnd { end_reason: "quit".into() })
    );
}

#[test]
fn pi_agent_name_is_pi() {
    assert_eq!(PI_AGENT, "pi");
}

#[test]
fn pi_normalizes_each_builtin_tool() {
    let table = [
        ("bash", "Bash"),
        ("read", "Read"),
        ("write", "Write"),
        ("edit", "Edit"),
        ("grep", "Grep"),
        ("find", "Glob"),
        ("ls", "Glob"),
    ];
    for (raw, canonical) in table {
        assert_eq!(normalize_tool_name(raw), canonical);
    }
}

#[test]
fn pi_passes_unknown_tool_names_through() {
    assert_eq!(normalize_tool_name("read_file"), "read_file");
    assert_eq!(normalize_tool_name("Bash"), "Bash");
    assert_eq!(normalize_tool_name(""), "");
    assert_eq!(normalize_tool_name("BASH"), "BASH");
}

#[test]
fn pi_tool_name_normalization_is_idempotent() {
    for raw in ["bash", "read", "write", "edit", "grep", "find", "ls", "custom", "Glob"] {
        let once = normalize_tool_name(raw);
        assert_eq!(normalize_tool_name(&once), once);
    }
}

#[test]
fn pi_user_prompt_submit_is_supported() {
    let event = PiAdapter
        .parse("user-prompt-submit", &obj(vec![("cwd", s("/w")), ("prompt", s("fix it"))]))
        .unwrap();
    assert_eq!(
        event,
        AgentEvent::UserPromptSubmit {
            agent: "pi".into(),
            cwd: "/w".into(),
            permission_mode: "".into(),
            prompt: "fix it".into(),
            worktree: None,
            agent_id: None,
            session_id: None,
        }
    );
}

#[test]
fn pi_stop_and_notification_are_supported() {
    let stop = PiAdapter
        .parse("stop", &obj(vec![("last_message", s("done")), ("session_id", s("s9"))]))
        .unwrap();
    assert_eq!(
        stop,
        AgentEvent::Stop {
            agent: "pi".into(),
            cwd: "".into(),
            permission_mode: "".into(),
            last_message: "done".into(),
            response: None,
            worktree: None,
            agent_id: None,
            session_id: Some("s9".into()),
        }
    );
    let note = PiAdapter.parse("notification", &obj(vec![("wait_reason", s("idle"))])).unwrap();
    assert_eq!(
        note,
        AgentEvent::Notification {
            agent: "pi".into(),
            cwd: "".into(),
            permission_mode: "".into(),
            wait_reason: "idle".into(),
            meta_only: false,
            worktree: None,
            agent_id: None,
            session_id: None,
        }
    );
}

#[test]
fn pi_stop_failure_is_supported() {
    let event = PiAdapter.parse("stop-failure", &obj(vec![("error", s("boom"))])).unwrap();
    assert_eq!(
        event,
        AgentEvent::StopFailure {
            agent: "pi".into(),
            cwd: "".into(),
            permission_mode: "".into(),
            error: "boom".into(),
            worktree: None,
            agent_id: None,
            session_id: None,
        }
    );
}

#[test]
fn pi_unknown_event_returns_none() {
    assert!(PiAdapter.parse("pre-tool-use", &obj(vec![])).is_none());
    assert!(PiAdapter.parse("Session-Start", &obj(vec![])).is_none());
}

#[test]
fn pi_activity_log_without_string_tool_name_returns_none() {
    assert!(PiAdapter.parse("activity-log", &obj(vec![])).is_none());
    assert!(PiAdapter
        .parse("activity-log", &obj(vec![("tool_name", JsonValue::Number("7".into()))]))
        .is_none());
    assert!(PiAdapter.parse("activity-log", &s("bash")).is_none());
}

#[test]
fn pi_non_string_fields_read_as_empty() {
    let event = PiAdapter
        .parse(
            "session-start",
            &obj(vec![("cwd", JsonValue::Bool(true)), ("session_id", JsonValue::Null)]),
        )
        .unwrap();
    assert_eq!(
        event,
        AgentEvent::SessionStart {
            agent: "pi".into(),
            cwd: "".into(),
            permission_mode: "".into(),
            source: "".into(),
            worktree: None,
            agent_id: None,
            session_id: None,
        }
    );
}

#[test]
fn pi_missing_tool_input_and_response_become_null() {
    let event = PiAdapter.parse("activity-log", &obj(vec![("tool_name", s("edit"))])).unwrap();
    assert_eq!(
        event,
        AgentEvent::ActivityLog {
            tool_name: "Edit".into(),
            tool_input: JsonValue::Null,
            tool_response: JsonValue::Null,
        }
    );
}
