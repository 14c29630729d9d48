//! The adapter for Smelt, whose plugin emits the sidebar's hook events with
//! Smelt's own lowercase tool names.

use vstd::prelude::*;

use crate::adapter::{self, pi, json_str, json_value_or_null, normalize_tool_input, parse_lifecycle};
use crate::event::{AgentEvent, EventAdapter, EventModel};
use crate::json::{JsonModel, JsonValue};
use crate::text::str_eq;
use crate::tmux::SMELT_AGENT;
use crate::tool_name::CanonicalTool;

verus! {

/// The adapter for Smelt panes.
pub struct SmeltAdapter;

/// The tool of the shared vocabulary that a Smelt built-in tool name stands for.
pub open spec fn smelt_tool(raw: Seq<char>) -> Option<CanonicalTool> {
    if raw == "bash"@ {
        Some(CanonicalTool::Bash)
    } else if raw == "read_file"@ || raw == "read"@ {
        Some(CanonicalTool::Read)
    } else if raw == "write_file"@ || raw == "write"@ {
        Some(CanonicalTool::Write)
    } else if raw == "edit_file"@ || raw == "edit"@ {
        Some(CanonicalTool::Edit)
    } else if raw == "grep"@ {
        Some(CanonicalTool::Grep)
    } else if raw == "glob"@ || raw == "find"@ || raw == "ls"@ {
        Some(CanonicalTool::Glob)
    } else if raw == "web_fetch"@ {
        Some(CanonicalTool::WebFetch)
    } else if raw == "web_search"@ {
        Some(CanonicalTool::WebSearch)
    } else if raw == "tool_search"@ {
        Some(CanonicalTool::ToolSearch)
    } else if raw == "skill"@ {
        Some(CanonicalTool::Skill)
    } else if raw == "notebook_edit"@ {
        Some(CanonicalTool::NotebookEdit)
    } else if raw == "notebook_edit_async"@ {
        Some(CanonicalTool::NotebookEdit)
    } else if raw == "ask_user_question"@ {
        Some(CanonicalTool::AskUserQuestion)
    } else if raw == "todo_write"@ {
        Some(CanonicalTool::TodoWrite)
    } else if raw == "task_create"@ {
        Some(CanonicalTool::TaskCreate)
    } else if raw == "task_update"@ {
        Some(CanonicalTool::TaskUpdate)
    } else if raw == "task_get"@ {
        Some(CanonicalTool::TaskGet)
    } else if raw == "task_stop"@ {
        Some(CanonicalTool::TaskStop)
    } else if raw == "task_output"@ {
        Some(CanonicalTool::TaskOutput)
    } else {
        None
    }
}

/// A Smelt tool name in the shared vocabulary; any other name stays as it is.
pub open spec fn smelt_tool_name(raw: Seq<char>) -> Seq<char> {
    match smelt_tool(raw) {
        Some(tool) => tool.name(),
        None => raw,
    }
}

/// Normalizing a Smelt tool name twice gives what normalizing it once
/// gives: no name of the shared vocabulary is itself a Smelt tool name.
pub proof fn lemma_smelt_tool_name_idempotent(raw: Seq<char>)
    ensures
        smelt_tool_name(smelt_tool_name(raw)) == smelt_tool_name(raw),
{
    if let Some(tool) = smelt_tool(raw) {
        let name = tool.name();
        tool.lemma_name_capitalized();
        reveal_strlit("bash");
        assert(name[0] != "bash"@[0]);
        reveal_strlit("read_file");
        assert(name[0] != "read_file"@[0]);
        reveal_strlit("read");
        assert(name[0] != "read"@[0]);
        reveal_strlit("write_file");
        assert(name[0] != "write_file"@[0]);
        reveal_strlit("write");
        assert(name[0] != "write"@[0]);
        reveal_strlit("edit_file");
        assert(name[0] != "edit_file"@[0]);
        reveal_strlit("edit");
        assert(name[0] != "edit"@[0]);
        reveal_strlit("grep");
        assert(name[0] != "grep"@[0]);
        reveal_strlit("glob");
        assert(name[0] != "glob"@[0]);
        reveal_strlit("find");
        assert(name[0] != "find"@[0]);
        reveal_strlit("ls");
        assert(name[0] != "ls"@[0]);
        reveal_strlit("web_fetch");
        assert(name[0] != "web_fetch"@[0]);
        reveal_strlit("web_search");
        assert(name[0] != "web_search"@[0]);
        reveal_strlit("tool_search");
        assert(name[0] != "tool_search"@[0]);
        reveal_strlit("skill");
        assert(name[0] != "skill"@[0]);
        reveal_strlit("notebook_edit");
        assert(name[0] != "notebook_edit"@[0]);
        reveal_strlit("notebook_edit_async");
        assert(name[0] != "notebook_edit_async"@[0]);
        reveal_strlit("ask_user_question");
        assert(name[0] != "ask_user_question"@[0]);
        reveal_strlit("todo_write");
        assert(name[0] != "todo_write"@[0]);
        reveal_strlit("task_create");
        assert(name[0] != "task_create"@[0]);
        reveal_strlit("task_update");
        assert(name[0] != "task_update"@[0]);
        reveal_strlit("task_get");
        assert(name[0] != "task_get"@[0]);
        reveal_strlit("task_stop");
        assert(name[0] != "task_stop"@[0]);
        reveal_strlit("task_output");
        assert(name[0] != "task_output"@[0]);
    }
}

/// Smelt knows every tool name that Pi knows, and maps it to the same tool.
pub proof fn lemma_smelt_extends_pi(raw: Seq<char>)
    ensures
        pi::pi_tool(raw) is Some ==> smelt_tool(raw) == pi::pi_tool(raw),
{
    reveal_strlit("bash");
    reveal_strlit("read_file");
    reveal_strlit("read");
    reveal_strlit("write_file");
    reveal_strlit("write");
    reveal_strlit("edit_file");
    reveal_strlit("edit");
    reveal_strlit("grep");
    reveal_strlit("glob");
    reveal_strlit("find");
    reveal_strlit("ls");
    if raw == "bash"@ {
    }
    if raw == "read"@ {
            assert("read"@[0] != "bash"@[0]);
            assert("read"@.len() != "read_file"@.len());
    }
    if raw == "write"@ {
            assert("write"@.len() != "bash"@.len());
            assert("write"@.len() != "read_file"@.len());
            assert("write"@.len() != "read"@.len());
            assert("write"@.len() != "write_file"@.len());
    }
    if raw == "edit"@ {
            assert("edit"@[0] != "bash"@[0]);
            assert("edit"@.len() != "read_file"@.len());
            assert("edit"@[0] != "read"@[0]);
            assert("edit"@.len() != "write_file"@.len());
            assert("edit"@.len() != "write"@.len());
            assert("edit"@.len() != "edit_file"@.len());
    }
    if raw == "grep"@ {
            assert("grep"@[0] != "bash"@[0]);
            assert("grep"@.len() != "read_file"@.len());
            assert("grep"@[0] != "read"@[0]);
            assert("grep"@.len() != "write_file"@.len());
            assert("grep"@.len() != "write"@.len());
            assert("grep"@.len() != "edit_file"@.len());
            assert("grep"@[0] != "edit"@[0]);
    }
    if raw == "find"@ {
            assert("find"@[0] != "bash"@[0]);
            assert("find"@.len() != "read_file"@.len());
            assert("find"@[0] != "read"@[0]);
            assert("find"@.len() != "write_file"@.len());
            assert("find"@.len() != "write"@.len());
            assert("find"@.len() != "edit_file"@.len());
            assert("find"@[0] != "edit"@[0]);
            assert("find"@[0] != "grep"@[0]);
            assert("find"@[0] != "glob"@[0]);
    }
    if raw == "ls"@ {
            assert("ls"@.len() != "bash"@.len());
            assert("ls"@.len() != "read_file"@.len());
            assert("ls"@.len() != "read"@.len());
            assert("ls"@.len() != "write_file"@.len());
            assert("ls"@.len() != "write"@.len());
            assert("ls"@.len() != "edit_file"@.len());
            assert("ls"@.len() != "edit"@.len());
            assert("ls"@.len() != "grep"@.len());
            assert("ls"@.len() != "glob"@.len());
            assert("ls"@.len() != "find"@.len());
    }
}

/// The event that a Smelt hook named `event_name` with payload `input` stands for.
pub open spec fn smelt_event(event_name: Seq<char>, input: JsonModel) -> Option<EventModel> {
    if event_name == "activity-log"@ {
        let raw_name = adapter::text_or_empty(input, "tool_name"@);
        adapter::activity_event(raw_name, smelt_tool_name(raw_name), input)
    } else {
        adapter::lifecycle_event(SMELT_AGENT@, event_name, input)
    }
}

/// Every Smelt event that names an agent names `smelt`, with no permission
/// mode, worktree or sub-agent id.
pub proof fn lemma_smelt_events_labelled(event_name: Seq<char>, input: JsonModel)
    ensures
        smelt_event(event_name, input) matches Some(e) ==> adapter::labelled_for(e, SMELT_AGENT@),
{
    adapter::lemma_lifecycle_labelled(SMELT_AGENT@, event_name, input);
}

/// The Smelt and Pi adapters agree: on lifecycle hooks up to the agent
/// name, and on activity of every tool that Pi knows.
pub proof fn lemma_smelt_agrees_with_pi(event_name: Seq<char>, input: JsonModel)
    ensures
        event_name != "activity-log"@ ==> smelt_event(event_name, input) == match pi::pi_event(
            event_name,
            input,
        ) {
            Some(e) => Some(adapter::relabelled(e, SMELT_AGENT@)),
            None => None,
        },
        event_name == "activity-log"@ && pi::pi_tool(adapter::text_or_empty(input, "tool_name"@))
            is Some ==> smelt_event(event_name, input) == pi::pi_event(event_name, input),
{
    adapter::lemma_lifecycle_relabel(crate::tmux::PI_AGENT@, SMELT_AGENT@, event_name, input);
    lemma_smelt_extends_pi(adapter::text_or_empty(input, "tool_name"@));
}

/// A Smelt activity-log hook with a tool name becomes an ActivityLog event
/// whose tool is that name in the shared vocabulary, whose response is the
/// payload's (or null), and whose arguments are the payload's with every key
/// kept; for Read, Write and Edit, `path` is also found under `file_path`
/// where that key was missing. Without a tool name there is no event.
pub proof fn lemma_smelt_activity_event(input: JsonModel)
    ensures
        ({
            let raw = adapter::text_or_empty(input, "tool_name"@);
            let args = adapter::value_or_null(input, "tool_input"@);
            &&& raw.len() == 0 ==> smelt_event("activity-log"@, input) is None
            &&& raw.len() > 0 ==> (smelt_event("activity-log"@, input) matches Some(
                EventModel::ActivityLog { tool_name, tool_input, tool_response },
            ) && tool_name == smelt_tool_name(raw) && tool_response == adapter::value_or_null(
                input,
                "tool_response"@,
            ) && (forall|k: Seq<char>|
                #[trigger] crate::json::field(args, k) is Some ==> crate::json::field(tool_input, k)
                    == crate::json::field(args, k)) && ((tool_name == "Read"@ || tool_name
                == "Write"@ || tool_name == "Edit"@) && args is Object && crate::json::field(
                args,
                "file_path"@,
            ) is None ==> crate::json::field(tool_input, "file_path"@) == crate::json::field(
                args,
                "path"@,
            )))
        }),
{
    let raw = adapter::text_or_empty(input, "tool_name"@);
    adapter::lemma_activity_event_fields(raw, smelt_tool_name(raw), input);
}

/// Smelt built-in tool names are lowercase (`bash`, `read_file`, …),
/// while the sidebar's label extractor uses the same
/// PascalCase vocabulary for every agent. Normalize once here so
/// activity rendering stays shared across adapters.
pub fn normalize_tool_name(raw: &str) -> (name: String)
    ensures
        name@ == smelt_tool_name(raw@),
{
    let canonical = if str_eq(raw, "bash") {
        CanonicalTool::Bash
    } else if str_eq(raw, "read_file") || str_eq(raw, "read") {
        CanonicalTool::Read
    } else if str_eq(raw, "write_file") || str_eq(raw, "write") {
        CanonicalTool::Write
    } else if str_eq(raw, "edit_file") || str_eq(raw, "edit") {
        CanonicalTool::Edit
    } else if str_eq(raw, "grep") {
        CanonicalTool::Grep
    } else if str_eq(raw, "glob") || str_eq(raw, "find") || str_eq(raw, "ls") {
        CanonicalTool::Glob
    } else if str_eq(raw, "web_fetch") {
        CanonicalTool::WebFetch
    } else if str_eq(raw, "web_search") {
        CanonicalTool::WebSearch
    } else if str_eq(raw, "tool_search") {
        CanonicalTool::ToolSearch
    } else if str_eq(raw, "skill") {
        CanonicalTool::Skill
    } else if str_eq(raw, "notebook_edit") {
        CanonicalTool::NotebookEdit
    } else if str_eq(raw, "notebook_edit_async") {
        CanonicalTool::NotebookEdit
    } else if str_eq(raw, "ask_user_question") {
        CanonicalTool::AskUserQuestion
    } else if str_eq(raw, "todo_write") {
        CanonicalTool::TodoWrite
    } else if str_eq(raw, "task_create") {
        CanonicalTool::TaskCreate
    } else if str_eq(raw, "task_update") {
        CanonicalTool::TaskUpdate
    } else if str_eq(raw, "task_get") {
        CanonicalTool::TaskGet
    } else if str_eq(raw, "task_stop") {
        CanonicalTool::TaskStop
    } else if str_eq(raw, "task_output") {
        CanonicalTool::TaskOutput
    } else {
        return raw.to_owned();
    };
    canonical.as_str().to_owned()
}

impl EventAdapter for SmeltAdapter {
    open spec fn event_for(&self, event_name: Seq<char>, input: JsonModel) -> Option<EventModel> {
        smelt_event(event_name, input)
    }

    fn parse(&self, event_name: &str, input: &JsonValue) -> (event: Option<AgentEvent>) {
        if str_eq(event_name, "activity-log") {
            let raw_name = json_str(input, "tool_name");
            if raw_name.is_empty() {
                return None;
            }
            let tool_name = normalize_tool_name(raw_name);
            let tool_input = normalize_tool_input(
                tool_name.as_str(),
                json_value_or_null(input, "tool_input"),
            );
            Some(
                AgentEvent::ActivityLog {
                    tool_name,
                    tool_input,
                    tool_response: json_value_or_null(input, "tool_response"),
                },
            )
        } else {
            parse_lifecycle(SMELT_AGENT, event_name, input)
        }
    }
}

} // verus!
