use tmux_agent_sidebar::adapter::{
    copy_keys, json_str, json_value_or_null, normalize_tool_input, optional_str, parse_lifecycle,
};
use tmux_agent_sidebar::event::AgentEvent;
use tmux_agent_sidebar::json::{JsonMap, JsonValue};
use tmux_agent_sidebar::text::str_eq;
use tmux_agent_sidebar::tool_name::CanonicalTool;

fn s(text: &str) -> JsonValue {
    JsonValue::Str(text.to_string())
}

fn map_of(entries: Vec<(&str, JsonValue)>) -> JsonMap {
    let mut map = JsonMap::new();
    for (key, value) in entries {
        map.insert(key.to_string(), value);
    }
    map
}

fn obj(entries: Vec<(&str, JsonValue)>) -> JsonValue {
    JsonValue::Object(map_of(entries))
}

fn keys(map: &JsonMap) -> Vec<String> {
    map.entries().iter().map(|(k, _)| k.clone()).collect()
}

#[test]
fn map_insert_then_get_reads_the_write() {
    let mut map = map_of(vec![("a", s("1")), ("b", s("2"))]);
    map.insert("c".to_string(), s("3"));
    assert_eq!(map.get("c"), Some(&s("3")));
    assert_eq!(map.get("a"), Some(&s("1")));
    assert_eq!(map.get("b"), Some(&s("2")));
    assert_eq!(map.get("d"), None);
    assert_eq!(map.len(), 3);
}

#[test]
fn map_insert_replaces_in_place() {
    let mut map = map_of(vec![("a", s("1")), ("b", s("2"))]);
    map.insert("a".to_string(), JsonValue::Bool(false));
    assert_eq!(map.len(), 2);
    assert_eq!(keys(&map), vec!["a".to_string(), "b".to_string()]);
    assert_eq!(map.get("a"), Some(&JsonValue::Bool(false)));
    assert!(map.contains_key("b"));
    assert!(!map.contains_key("B"));
}

#[test]
fn empty_map_holds_nothing() {
    let map = JsonMap::new();
    assert_eq!(map.len(), 0);
    assert!(!map.contains_key(""));
    assert_eq!(map.get("x"), None);
}

#[test]
fn duplicate_copies_nested_documents() {
    let doc = obj(vec![
        ("list", JsonValue::Array(vec![JsonValue::Number("1.5e3".into()), JsonValue::Null])),
        ("inner", obj(vec![("flag", JsonValue::Bool(true)), ("name", s("ü"))])),
    ]);
    let copy = doc.duplicate();
    assert_eq!(copy, doc);
}

#[test]
fn value_get_only_reads_objects() {
    assert_eq!(s("x").get("x"), None);
    assert_eq!(JsonValue::Array(vec![s("x")]).get("0"), None);
    assert_eq!(obj(vec![("k", s("v"))]).get("k"), Some(&s("v")));
    assert_eq!(s("x").as_str(), Some("x"));
    assert_eq!(JsonValue::Null.as_str(), None);
}

#[test]
fn payload_readers() {
    let payload = obj(vec![("cwd", s("/r")), ("n", JsonValue::Number("3".into()))]);
    assert_eq!(json_str(&payload, "cwd"), "/r");
    assert_eq!(json_str(&payload, "n"), "");
    assert_eq!(json_str(&payload, "missing"), "");
    assert_eq!(optional_str(&payload, "cwd"), Some("/r".to_string()));
    assert_eq!(optional_str(&payload, "n"), None);
    assert_eq!(json_value_or_null(&payload, "n"), JsonValue::Number("3".into()));
    assert_eq!(json_value_or_null(&payload, "missing"), JsonValue::Null);
    assert_eq!(json_str(&s("cwd"), "cwd"), "");
}

#[test]
fn copy_keys_copies_only_missing_destinations() {
    let mut map = map_of(vec![("path", s("/p")), ("x", s("1"))]);
    copy_keys(&mut map, &vec![("path", "file_path"), ("x", "path"), ("nothing", "y")]);
    let mut sorted = keys(&map);
    sorted.sort();
    assert_eq!(sorted, vec!["file_path".to_string(), "path".to_string(), "x".to_string()]);
    assert_eq!(map.get("file_path"), Some(&s("/p")));
    assert_eq!(map.get("path"), Some(&s("/p")));
    assert_eq!(map.get("y"), None);
}

#[test]
fn copy_keys_applies_pairs_in_turn() {
    let mut map = map_of(vec![("a", s("1"))]);
    copy_keys(&mut map, &vec![("a", "b"), ("b", "c")]);
    assert_eq!(map.get("c"), Some(&s("1")));
}

#[test]
fn normalize_tool_input_rewrites_file_tools_only() {
    for tool in ["Read", "Write", "Edit"] {
        let out = normalize_tool_input(tool, obj(vec![("path", s("/f"))]));
        assert_eq!(out, obj(vec![("path", s("/f")), ("file_path", s("/f"))]));
    }
    for tool in ["Bash", "read", "Glob", ""] {
        let out = normalize_tool_input(tool, obj(vec![("path", s("/f"))]));
        assert_eq!(out, obj(vec![("path", s("/f"))]));
    }
}

#[test]
fn normalize_tool_input_passes_non_objects_through() {
    assert_eq!(normalize_tool_input("Read", JsonValue::Null), JsonValue::Null);
    assert_eq!(normalize_tool_input("Read", s("path")), s("path"));
    let arr = JsonValue::Array(vec![s("path")]);
    assert_eq!(normalize_tool_input("Read", arr.duplicate()), arr);
}

#[test]
fn normalize_tool_input_keeps_existing_file_path_and_is_idempotent() {
    let once = normalize_tool_input("Edit", obj(vec![("file_path", s("/a")), ("path", s("/b"))]));
    assert_eq!(once, obj(vec![("file_path", s("/a")), ("path", s("/b"))]));
    let first = normalize_tool_input("Read", obj(vec![("path", s("/f")), ("k", s("v"))]));
    let second = normalize_tool_input("Read", first.duplicate());
    assert_eq!(first, second);
}

#[test]
fn normalize_tool_input_without_path_changes_nothing() {
    let out = normalize_tool_input("Read", obj(vec![("command", s("ls"))]));
    assert_eq!(out, obj(vec![("command", s("ls"))]));
}

#[test]
fn parse_lifecycle_uses_given_agent() {
    let event = parse_lifecycle("agent-x", "session-end", &obj(vec![])).unwrap();
    assert_eq!(event, AgentEvent::SessionEnd { end_reason: "".into() });
    let start = parse_lifecycle("agent-x", "session-start", &obj(vec![])).unwrap();
    match start {
        AgentEvent::SessionStart { agent, .. } => assert_eq!(agent, "agent-x"),
        other => panic!("unexpected {other:?}"),
    }
    assert!(parse_lifecycle("agent-x", "activity-log", &obj(vec![])).is_none());
}

#[test]
fn str_eq_compares_characters() {
    assert!(str_eq("", ""));
    assert!(str_eq("héllo", "héllo"));
    assert!(!str_eq("héllo", "hello"));
    assert!(!str_eq("ab", "abc"));
    assert!(!str_eq("read", "Read"));
}

#[test]
fn canonical_tool_names() {
    assert_eq!(CanonicalTool::Bash.as_str(), "Bash");
    assert_eq!(CanonicalTool::Glob.as_str(), "Glob");
    assert_eq!(CanonicalTool::AskUserQuestion.as_str(), "AskUserQuestion");
    assert_eq!(CanonicalTool::NotebookEdit.as_str(), "NotebookEdit");
    assert_eq!(CanonicalTool::TaskOutput.as_str(), "TaskOutput");
    assert_eq!(CanonicalTool::WebFetch.as_str(), "WebFetch");
}

#[test]
fn object_equality_ignores_key_order() {
    let a = obj(vec![("path", s("/f")), ("file_path", s("/f"))]);
    let b = obj(vec![("file_path", s("/f")), ("path", s("/f"))]);
    assert_eq!(a, b);
    let nested_a = obj(vec![("x", a.duplicate()), ("y", JsonValue::Null)]);
    let nested_b = obj(vec![("y", JsonValue::Null), ("x", b.duplicate())]);
    assert_eq!(nested_a, nested_b);
}

#[test]
fn documents_with_different_values_are_unequal() {
    assert_ne!(obj(vec![("a", s("1"))]), obj(vec![("a", s("2"))]));
    assert_ne!(obj(vec![("a", s("1"))]), obj(vec![("b", s("1"))]));
    assert_ne!(obj(vec![("a", s("1"))]), obj(vec![("a", s("1")), ("b", s("1"))]));
    assert_ne!(
        JsonValue::Array(vec![s("1"), s("2")]),
        JsonValue::Array(vec![s("2"), s("1")])
    );
    assert_ne!(JsonValue::Number("1".into()), s("1"));
    assert_ne!(JsonValue::Bool(true), JsonValue::Bool(false));
    assert_eq!(JsonValue::Number("2".into()), JsonValue::Number("2".into()));
}
