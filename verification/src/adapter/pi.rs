//! The adapter for Pi, whose extension bridge emits the sidebar's hook
//! events with Pi's own lowercase tool names.

use vstd::prelude::*;

use crate::adapter::{self, json_str, json_value_or_null, normalize_tool_input, parse_lifecycle};
use crate::event::{AgentEvent, EventAdapter, EventModel};
use crate::json::{JsonModel, JsonValue};
use crate::text::str_eq;
use crate::tmux::PI_AGENT;
use crate::tool_name::CanonicalTool;

verus! {

/// The adapter for Pi panes.
pub struct PiAdapter;

/// The tool of the shared vocabulary that a Pi built-in tool name stands for.
pub open spec fn pi_tool(raw: Seq<char>) -> Option<CanonicalTool> {
    if raw == "bash"@ {
        Some(CanonicalTool::Bash)
    } else if raw == "read"@ {
        Some(CanonicalTool::Read)
    } else if raw == "write"@ {
        Some(CanonicalTool::Write)
    } else if raw == "edit"@ {
        Some(CanonicalTool::Edit)
    } else if raw == "grep"@ {
        Some(CanonicalTool::Grep)
    } else if raw == "find"@ || raw == "ls"@ {
        Some(CanonicalTool::Glob)
    } else {
        None
    }
}

/// A Pi tool name in the shared vocabulary; any other name stays as it is.
pub open spec fn pi_tool_name(raw: Seq<char>) -> Seq<char> {
    match pi_tool(raw) {
        Some(tool) => tool.name(),
        None => raw,
    }
}

/// Normalizing a Pi tool name twice gives what normalizing it once gives:
/// no name of the shared vocabulary is itself a Pi tool name.
pub proof fn lemma_pi_tool_name_idempotent(raw: Seq<char>)
    ensures
        pi_tool_name(pi_tool_name(raw)) == pi_tool_name(raw),
{
    if let Some(tool) = pi_tool(raw) {
        let name = tool.name();
        tool.lemma_name_capitalized();
        reveal_strlit("bash");
        assert(name[0] != "bash"@[0]);
        reveal_strlit("read");
        assert(name[0] != "read"@[0]);
        reveal_strlit("write");
        assert(name[0] != "write"@[0]);
        reveal_strlit("edit");
        assert(name[0] != "edit"@[0]);
        reveal_strlit("grep");
        assert(name[0] != "grep"@[0]);
        reveal_strlit("find");
        assert(name[0] != "find"@[0]);
        reveal_strlit("ls");
        assert(name[0] != "ls"@[0]);
    }
}

/// The event that a Pi hook named `event_name` with payload `input` stands for.
pub open spec fn pi_event(event_name: Seq<char>, input: JsonModel) -> Option<EventModel> {
    if event_name == "activity-log"@ {
        let raw_name = adapter::text_or_empty(input, "tool_name"@);
        adapter::activity_event(raw_name, pi_tool_name(raw_name), input)
    } else {
        adapter::lifecycle_event(PI_AGENT@, event_name, input)
    }
}

/// Every Pi event that names an agent names `pi`, with no permission mode,
/// worktree or sub-agent id: Pi exposes none of these.
pub proof fn lemma_pi_events_labelled(event_name: Seq<char>, input: JsonModel)
    ensures
        pi_event(event_name, input) matches Some(e) ==> adapter::labelled_for(e, PI_AGENT@),
{
    adapter::lemma_lifecycle_labelled(PI_AGENT@, event_name, input);
}

/// A Pi activity-log hook with a tool name becomes an ActivityLog event
/// whose tool is that name in the shared vocabulary, whose response is the
/// payload's (or null), and whose arguments are the payload's with every key
/// kept; for Read, Write and Edit, `path` is also found under `file_path`
/// where that key was missing. Without a tool name there is no event.
pub proof fn lemma_pi_activity_event(input: JsonModel)
    ensures
        ({
            let raw = adapter::text_or_empty(input, "tool_name"@);
            let args = adapter::value_or_null(input, "tool_input"@);
            &&& raw.len() == 0 ==> pi_event("activity-log"@, input) is None
            &&& raw.len() > 0 ==> (pi_event("activity-log"@, input) matches Some(
                EventModel::ActivityLog { tool_name, tool_input, tool_response },
            ) && tool_name == pi_tool_name(raw) && tool_response == adapter::value_or_null(
                input,
                "tool_response"@,
            ) && (forall|k: Seq<char>|
                #[trigger] crate::json::field(args, k) is Some ==> crate::json::field(tool_input, k)
                    == crate::json::field(args, k)) && ((tool_name == "Read"@ || tool_name
                == "Write"@ || tool_name == "Edit"@) && args is Object && crate::json::field(
                args,
                "file_path"@,
            ) is None ==> crate::json::field(tool_input, "file_path"@) == crate::json::field(
                args,
                "path"@,
            )))
        }),
{
    let raw = adapter::text_or_empty(input, "tool_name"@);
    adapter::lemma_activity_event_fields(raw, pi_tool_name(raw), input);
}

/// Pi built-in tool names are lowercase (`bash`, `read`, …), while the
/// sidebar's label extractor uses the same PascalCase
/// vocabulary for every agent. Normalize once here so activity rendering
/// stays shared across adapters.
pub fn normalize_tool_name(raw: &str) -> (name: String)
    ensures
        name@ == pi_tool_name(raw@),
{
    let canonical = if str_eq(raw, "bash") {
        CanonicalTool::Bash
    } else if str_eq(raw, "read") {
        CanonicalTool::Read
    } else if str_eq(raw, "write") {
        CanonicalTool::Write
    } else if str_eq(raw, "edit") {
        CanonicalTool::Edit
    } else if str_eq(raw, "grep") {
        CanonicalTool::Grep
    } else if str_eq(raw, "find") || str_eq(raw, "ls") {
        CanonicalTool::Glob
    } else {
        return raw.to_owned();
    };
    canonical.as_str().to_owned()
}

impl EventAdapter for PiAdapter {
    open spec fn event_for(&self, event_name: Seq<char>, input: JsonModel) -> Option<EventModel> {
        pi_event(event_name, input)
    }

    fn parse(&self, event_name: &str, input: &JsonValue) -> (event: Option<AgentEvent>) {
        if str_eq(event_name, "activity-log") {
            let raw_name = json_str(input, "tool_name");
            if raw_name.is_empty() {
                return None;
            }
            let tool_name = normalize_tool_name(raw_name);
            let tool_input = normalize_tool_input(
                tool_name.as_str(),
                json_value_or_null(input, "tool_input"),
            );
            Some(
                AgentEvent::ActivityLog {
                    tool_name,
                    tool_input,
                    tool_response: json_value_or_null(input, "tool_response"),
                },
            )
        } else {
            parse_lifecycle(PI_AGENT, event_name, input)
        }
    }
}

} // verus!
