//! What the agent adapters share: reading hook payloads, rewriting tool
//! arguments into the shared vocabulary, and the lifecycle events, which
//! only differ between agents by the agent's name.

pub mod pi;
pub mod smelt;

use vstd::prelude::*;

use crate::event::{self, AgentEvent, EventModel};
use crate::json::{self, JsonMap, JsonModel, JsonValue};
use crate::text::str_eq;

verus! {

/// The text under `key` in a payload, or the empty text where there is no
/// string there.
pub open spec fn text_or_empty(input: JsonModel, key: Seq<char>) -> Seq<char> {
    match json::text_of(json::field(input, key)) {
        Some(s) => s,
        None => Seq::empty(),
    }
}

/// The value under `key` in a payload, or null where there is none.
pub open spec fn value_or_null(input: JsonModel, key: Seq<char>) -> JsonModel {
    match json::field(input, key) {
        Some(v) => v,
        None => JsonModel::Null,
    }
}

/// The entries of an object after the value under `src` is copied to
/// `dst`, unless `dst` is already there or `src` is not.
pub open spec fn copy_entry(
    entries: Seq<(Seq<char>, JsonModel)>,
    src: Seq<char>,
    dst: Seq<char>,
) -> Seq<(Seq<char>, JsonModel)> {
    if json::lookup(entries, dst) is Some {
        entries
    } else {
        match json::lookup(entries, src) {
            Some(v) => json::insert_entry(entries, dst, v),
            None => entries,
        }
    }
}

/// The entries of an object after each `(src, dst)` pair is copied in turn.
pub open spec fn copy_entries(
    entries: Seq<(Seq<char>, JsonModel)>,
    pairs: Seq<(Seq<char>, Seq<char>)>,
) -> Seq<(Seq<char>, JsonModel)>
    decreases pairs.len(),
{
    if pairs.len() == 0 {
        entries
    } else {
        copy_entry(copy_entries(entries, pairs.drop_last()), pairs.last().0, pairs.last().1)
    }
}

/// The text of each side of each key pair.
pub open spec fn pairs_view(pairs: Seq<(&str, &str)>) -> Seq<(Seq<char>, Seq<char>)> {
    pairs.map_values(|p: (&str, &str)| (p.0@, p.1@))
}

/// Whether a tool of the shared vocabulary takes its file as `file_path`.
pub open spec fn is_file_tool(tool_name: Seq<char>) -> bool {
    tool_name == "Read"@ || tool_name == "Write"@ || tool_name == "Edit"@
}

/// The argument keys to copy for a tool: a file tool's `path` becomes
/// `file_path` as well.
pub open spec fn key_rewrites(tool_name: Seq<char>) -> Seq<(Seq<char>, Seq<char>)> {
    if is_file_tool(tool_name) {
        seq![("path"@, "file_path"@)]
    } else {
        Seq::empty()
    }
}

/// A tool's arguments in the keys that the shared label extractor expects;
/// every key that was there stays.
pub open spec fn normalized_input(tool_name: Seq<char>, input: JsonModel) -> JsonModel {
    match input {
        JsonModel::Object(entries) => JsonModel::Object(
            copy_entries(entries, key_rewrites(tool_name)),
        ),
        _ => input,
    }
}

/// Copying one key never drops or changes a key that was there.
proof fn lemma_copy_entry_keeps(
    entries: Seq<(Seq<char>, JsonModel)>,
    src: Seq<char>,
    dst: Seq<char>,
    key: Seq<char>,
)
    requires
        json::lookup(entries, key) is Some,
    ensures
        json::lookup(copy_entry(entries, src, dst), key) == json::lookup(entries, key),
{
    if json::lookup(entries, dst) is None {
        if let Some(v) = json::lookup(entries, src) {
            json::lemma_insert_then_lookup(entries, dst, v, key);
        }
    }
}

/// Copying keys in turn never drops or changes a key that was there.
proof fn lemma_copy_entries_keeps(
    entries: Seq<(Seq<char>, JsonModel)>,
    pairs: Seq<(Seq<char>, Seq<char>)>,
    key: Seq<char>,
)
    requires
        json::lookup(entries, key) is Some,
    ensures
        json::lookup(copy_entries(entries, pairs), key) == json::lookup(entries, key),
    decreases pairs.len(),
{
    if pairs.len() > 0 {
        lemma_copy_entries_keeps(entries, pairs.drop_last(), key);
        lemma_copy_entry_keeps(
            copy_entries(entries, pairs.drop_last()),
            pairs.last().0,
            pairs.last().1,
            key,
        );
    }
}

/// The rewrites of a tool copy at most `path` to `file_path`.
pub proof fn lemma_key_rewrites(tool_name: Seq<char>, entries: Seq<(Seq<char>, JsonModel)>)
    ensures
        copy_entries(entries, key_rewrites(tool_name)) == if is_file_tool(tool_name) {
            copy_entry(entries, "path"@, "file_path"@)
        } else {
            entries
        },
{
    let pairs = key_rewrites(tool_name);
    if pairs.len() > 0 {
        assert(pairs.drop_last().len() == 0);
        assert(copy_entries(entries, pairs.drop_last()) == entries);
        assert(pairs.last() == ("path"@, "file_path"@));
    }
}

/// Rewriting a tool's arguments keeps every key of the payload, each with
/// its value ("keep original keys too for raw payload consumers").
pub proof fn lemma_normalized_input_keeps_keys(tool_name: Seq<char>, input: JsonModel, key: Seq<char>)
    requires
        json::field(input, key) is Some,
    ensures
        json::field(normalized_input(tool_name, input), key) == json::field(input, key),
{
    if let JsonModel::Object(entries) = input {
        lemma_copy_entries_keeps(entries, key_rewrites(tool_name), key);
    }
}

/// For a file tool whose arguments have no `file_path`, the rewritten
/// arguments hold under `file_path` what they hold under `path`.
pub proof fn lemma_file_path_mirrors_path(tool_name: Seq<char>, input: JsonModel)
    requires
        is_file_tool(tool_name),
        input is Object,
        json::field(input, "file_path"@) is None,
    ensures
        json::field(normalized_input(tool_name, input), "file_path"@) == json::field(
            input,
            "path"@,
        ),
{
    let entries = input->Object_0;
    lemma_key_rewrites(tool_name, entries);
    if let Some(v) = json::lookup(entries, "path"@) {
        json::lemma_insert_then_lookup(entries, "file_path"@, v, "file_path"@);
    }
}

/// Rewriting a tool's arguments a second time changes nothing.
pub proof fn lemma_normalized_input_idempotent(tool_name: Seq<char>, input: JsonModel)
    ensures
        normalized_input(tool_name, normalized_input(tool_name, input)) == normalized_input(
            tool_name,
            input,
        ),
{
    if let JsonModel::Object(entries) = input {
        lemma_key_rewrites(tool_name, entries);
        let once = copy_entries(entries, key_rewrites(tool_name));
        lemma_key_rewrites(tool_name, once);
        if is_file_tool(tool_name) && json::lookup(entries, "file_path"@) is None {
            if let Some(v) = json::lookup(entries, "path"@) {
                json::lemma_insert_then_lookup(entries, "file_path"@, v, "file_path"@);
            }
        }
    }
}

/// The lifecycle event that a hook named `event_name` stands for, for the
/// agent named `agent`.
pub open spec fn lifecycle_event(
    agent: Seq<char>,
    event_name: Seq<char>,
    input: JsonModel,
) -> Option<EventModel> {
    let session_id = json::text_of(json::field(input, "session_id"@));
    if event_name == "session-start"@ {
        Some(
            EventModel::SessionStart {
                agent,
                cwd: text_or_empty(input, "cwd"@),
                permission_mode: Seq::empty(),
                source: text_or_empty(input, "source"@),
                worktree: None,
                agent_id: None,
                session_id,
            },
        )
    } else if event_name == "session-end"@ {
        Some(EventModel::SessionEnd { end_reason: text_or_empty(input, "end_reason"@) })
    } else if event_name == "user-prompt-submit"@ {
        Some(
            EventModel::UserPromptSubmit {
                agent,
                cwd: text_or_empty(input, "cwd"@),
                permission_mode: Seq::empty(),
                prompt: text_or_empty(input, "prompt"@),
                worktree: None,
                agent_id: None,
                session_id,
            },
        )
    } else if event_name == "notification"@ {
        Some(
            EventModel::Notification {
                agent,
                cwd: text_or_empty(input, "cwd"@),
                permission_mode: Seq::empty(),
                wait_reason: text_or_empty(input, "wait_reason"@),
                meta_only: false,
                worktree: None,
                agent_id: None,
                session_id,
            },
        )
    } else if event_name == "stop"@ {
        Some(
            EventModel::Stop {
                agent,
                cwd: text_or_empty(input, "cwd"@),
                permission_mode: Seq::empty(),
                last_message: text_or_empty(input, "last_message"@),
                response: None,
                worktree: None,
                agent_id: None,
                session_id,
            },
        )
    } else if event_name == "stop-failure"@ {
        Some(
            EventModel::StopFailure {
                agent,
                cwd: text_or_empty(input, "cwd"@),
                permission_mode: Seq::empty(),
                error: text_or_empty(input, "error"@),
                worktree: None,
                agent_id: None,
                session_id,
            },
        )
    } else {
        None
    }
}

/// Whether every agent field of an event names `agent`, with no permission
/// mode, worktree or sub-agent id beside it.
pub open spec fn labelled_for(event: EventModel, agent: Seq<char>) -> bool {
    match event {
        EventModel::SessionStart { agent: a, permission_mode, worktree, agent_id, .. } => a
            == agent && permission_mode.len() == 0 && worktree is None && agent_id is None,
        EventModel::UserPromptSubmit { agent: a, permission_mode, worktree, agent_id, .. } => a
            == agent && permission_mode.len() == 0 && worktree is None && agent_id is None,
        EventModel::Notification { agent: a, permission_mode, worktree, agent_id, .. } => a
            == agent && permission_mode.len() == 0 && worktree is None && agent_id is None,
        EventModel::Stop { agent: a, permission_mode, worktree, agent_id, .. } => a == agent
            && permission_mode.len() == 0 && worktree is None && agent_id is None,
        EventModel::StopFailure { agent: a, permission_mode, worktree, agent_id, .. } => a
            == agent && permission_mode.len() == 0 && worktree is None && agent_id is None,
        EventModel::SessionEnd { .. } => true,
        EventModel::ActivityLog { .. } => true,
    }
}

/// An event with its agent field, where it has one, set to `agent`.
pub open spec fn relabelled(event: EventModel, agent: Seq<char>) -> EventModel {
    match event {
        EventModel::SessionStart { cwd, permission_mode, source, worktree, agent_id, session_id, .. } =>
        EventModel::SessionStart { agent, cwd, permission_mode, source, worktree, agent_id, session_id },
        EventModel::UserPromptSubmit { cwd, permission_mode, prompt, worktree, agent_id, session_id, .. } =>
        EventModel::UserPromptSubmit { agent, cwd, permission_mode, prompt, worktree, agent_id, session_id },
        EventModel::Notification {
            cwd,
            permission_mode,
            wait_reason,
            meta_only,
            worktree,
            agent_id,
            session_id,
            ..
        } => EventModel::Notification {
            agent,
            cwd,
            permission_mode,
            wait_reason,
            meta_only,
            worktree,
            agent_id,
            session_id,
        },
        EventModel::Stop {
            cwd,
            permission_mode,
            last_message,
            response,
            worktree,
            agent_id,
            session_id,
            ..
        } => EventModel::Stop {
            agent,
            cwd,
            permission_mode,
            last_message,
            response,
            worktree,
            agent_id,
            session_id,
        },
        EventModel::StopFailure { cwd, permission_mode, error, worktree, agent_id, session_id, .. } =>
        EventModel::StopFailure { agent, cwd, permission_mode, error, worktree, agent_id, session_id },
        _ => event,
    }
}

/// Every lifecycle event names the agent it was parsed for, and carries no
/// permission mode, worktree or sub-agent id.
pub proof fn lemma_lifecycle_labelled(agent: Seq<char>, event_name: Seq<char>, input: JsonModel)
    ensures
        lifecycle_event(agent, event_name, input) matches Some(e) ==> labelled_for(e, agent),
{
}

/// Two agents' lifecycle events differ in the agent name alone.
pub proof fn lemma_lifecycle_relabel(
    agent: Seq<char>,
    other: Seq<char>,
    event_name: Seq<char>,
    input: JsonModel,
)
    ensures
        lifecycle_event(other, event_name, input) == match lifecycle_event(
            agent,
            event_name,
            input,
        ) {
            Some(e) => Some(relabelled(e, other)),
            None => None,
        },
{
}

/// A session-start hook becomes a SessionStart event for the agent, with
/// the payload's `cwd`, `source` and `session_id`.
pub proof fn lemma_session_start_event(agent: Seq<char>, input: JsonModel)
    ensures
        lifecycle_event(agent, "session-start"@, input) matches Some(
            EventModel::SessionStart { agent: a, cwd, permission_mode, source, worktree, agent_id, session_id },
        ) && a == agent && cwd == text_or_empty(input, "cwd"@) && permission_mode.len() == 0
            && source == text_or_empty(input, "source"@) && worktree is None && agent_id is None
            && session_id == json::text_of(json::field(input, "session_id"@)),
{
    reveal_strlit("session-start");
    reveal_strlit("session-end");
    reveal_strlit("user-prompt-submit");
    reveal_strlit("notification");
    reveal_strlit("stop");
    reveal_strlit("stop-failure");
}

/// A session-end hook becomes a SessionEnd event with the payload's
/// `end_reason`.
pub proof fn lemma_session_end_event(agent: Seq<char>, input: JsonModel)
    ensures
        lifecycle_event(agent, "session-end"@, input) matches Some(EventModel::SessionEnd { end_reason })
            && end_reason == text_or_empty(input, "end_reason"@),
{
    reveal_strlit("session-start");
    reveal_strlit("session-end");
    reveal_strlit("user-prompt-submit");
    reveal_strlit("notification");
    reveal_strlit("stop");
    reveal_strlit("stop-failure");
    assert("session-end"@.len() != "session-start"@.len());
}

/// A user-prompt-submit hook becomes a UserPromptSubmit event for the
/// agent, with the payload's `cwd`, `prompt` and `session_id`.
pub proof fn lemma_user_prompt_submit_event(agent: Seq<char>, input: JsonModel)
    ensures
        lifecycle_event(agent, "user-prompt-submit"@, input) matches Some(
            EventModel::UserPromptSubmit { agent: a, cwd, permission_mode, prompt, worktree, agent_id, session_id },
        ) && a == agent && cwd == text_or_empty(input, "cwd"@) && permission_mode.len() == 0
            && prompt == text_or_empty(input, "prompt"@) && worktree is None && agent_id is None
            && session_id == json::text_of(json::field(input, "session_id"@)),
{
    reveal_strlit("session-start");
    reveal_strlit("session-end");
    reveal_strlit("user-prompt-submit");
    reveal_strlit("notification");
    reveal_strlit("stop");
    reveal_strlit("stop-failure");
    assert("user-prompt-submit"@.len() != "session-start"@.len());
    assert("user-prompt-submit"@.len() != "session-end"@.len());
}

/// A notification hook becomes a Notification event for the agent, with
/// the payload's `cwd`, `wait_reason` and `session_id`, and not meta-only.
pub proof fn lemma_notification_event(agent: Seq<char>, input: JsonModel)
    ensures
        lifecycle_event(agent, "notification"@, input) matches Some(
            EventModel::Notification {
                agent: a,
                cwd,
                permission_mode,
                wait_reason,
                meta_only,
                worktree,
                agent_id,
                session_id,
            },
        ) && a == agent && cwd == text_or_empty(input, "cwd"@) && permission_mode.len() == 0
            && wait_reason == text_or_empty(input, "wait_reason"@) && !meta_only && worktree is None
            && agent_id is None && session_id == json::text_of(json::field(input, "session_id"@)),
{
    reveal_strlit("session-start");
    reveal_strlit("session-end");
    reveal_strlit("user-prompt-submit");
    reveal_strlit("notification");
    reveal_strlit("stop");
    reveal_strlit("stop-failure");
    assert("notification"@.len() != "session-start"@.len());
    assert("notification"@.len() != "session-end"@.len());
    assert("notification"@.len() != "user-prompt-submit"@.len());
}

/// A stop hook becomes a Stop event for the agent, with the payload's
/// `cwd`, its whole `last_message` and its `session_id`, and no response.
pub proof fn lemma_stop_event(agent: Seq<char>, input: JsonModel)
    ensures
        lifecycle_event(agent, "stop"@, input) matches Some(
            EventModel::Stop {
                agent: a,
                cwd,
                permission_mode,
                last_message,
                response,
                worktree,
                agent_id,
                session_id,
            },
        ) && a == agent && cwd == text_or_empty(input, "cwd"@) && permission_mode.len() == 0
            && last_message == text_or_empty(input, "last_message"@) && response is None
            && worktree is None && agent_id is None && session_id == json::text_of(json::field(input, "session_id"@)),
{
    reveal_strlit("session-start");
    reveal_strlit("session-end");
    reveal_strlit("user-prompt-submit");
    reveal_strlit("notification");
    reveal_strlit("stop");
    reveal_strlit("stop-failure");
    assert("stop"@.len() != "session-start"@.len());
    assert("stop"@.len() != "session-end"@.len());
    assert("stop"@.len() != "user-prompt-submit"@.len());
    assert("stop"@.len() != "notification"@.len());
}

/// A stop-failure hook becomes a StopFailure event for the agent, with the
/// payload's `cwd`, `error` and `session_id`.
pub proof fn lemma_stop_failure_event(agent: Seq<char>, input: JsonModel)
    ensures
        lifecycle_event(agent, "stop-failure"@, input) matches Some(
            EventModel::StopFailure { agent: a, cwd, permission_mode, error, worktree, agent_id, session_id },
        ) && a == agent && cwd == text_or_empty(input, "cwd"@) && permission_mode.len() == 0
            && error == text_or_empty(input, "error"@) && worktree is None && agent_id is None
            && session_id == json::text_of(json::field(input, "session_id"@)),
{
    reveal_strlit("session-start");
    reveal_strlit("session-end");
    reveal_strlit("user-prompt-submit");
    reveal_strlit("notification");
    reveal_strlit("stop");
    reveal_strlit("stop-failure");
    assert("stop-failure"@.len() != "session-start"@.len());
    assert("stop-failure"@.len() != "session-end"@.len());
    assert("stop-failure"@.len() != "user-prompt-submit"@.len());
    assert("stop-failure"@[0] != "notification"@[0]);
    assert("stop-failure"@.len() != "stop"@.len());
}

/// The activity-log event for a payload whose raw tool name is `raw_name`,
/// which the agent's vocabulary turns into `tool_name`; none for an empty
/// raw name.
pub open spec fn activity_event(raw_name: Seq<char>, tool_name: Seq<char>, input: JsonModel) -> Option<
    EventModel,
> {
    if raw_name.len() == 0 {
        None
    } else {
        Some(
            EventModel::ActivityLog {
                tool_name,
                tool_input: normalized_input(tool_name, value_or_null(input, "tool_input"@)),
                tool_response: value_or_null(input, "tool_response"@),
            },
        )
    }
}

/// What an activity-log event holds, in terms of the payload: the tool
/// name given, the payload's response (or null), and the payload's
/// arguments with every key kept, where a file tool's `path` is also
/// found under `file_path` if that key was missing; none for an empty raw
/// name.
pub proof fn lemma_activity_event_fields(raw_name: Seq<char>, tool_name: Seq<char>, input: JsonModel)
    ensures
        raw_name.len() == 0 ==> activity_event(raw_name, tool_name, input) is None,
        ({
            let args = value_or_null(input, "tool_input"@);
            let file_tool = tool_name == "Read"@ || tool_name == "Write"@ || tool_name == "Edit"@;
            raw_name.len() > 0 ==> (activity_event(raw_name, tool_name, input) matches Some(
                EventModel::ActivityLog { tool_name: t, tool_input, tool_response },
            ) && t == tool_name && tool_response == value_or_null(input, "tool_response"@) && (
            forall|k: Seq<char>|
                #[trigger] json::field(args, k) is Some ==> json::field(tool_input, k)
                    == json::field(args, k)) && (file_tool && args is Object && json::field(
                args,
                "file_path"@,
            ) is None ==> json::field(tool_input, "file_path"@) == json::field(args, "path"@)) && (!(
            file_tool && args is Object) ==> tool_input == args))
        }),
{
    let args = value_or_null(input, "tool_input"@);
    assert forall|k: Seq<char>| #[trigger] json::field(args, k) is Some implies json::field(
        normalized_input(tool_name, args),
        k,
    ) == json::field(args, k) by {
        lemma_normalized_input_keeps_keys(tool_name, args, k);
    }
    if is_file_tool(tool_name) && args is Object && json::field(args, "file_path"@) is None {
        lemma_file_path_mirrors_path(tool_name, args);
    }
    if let JsonModel::Object(entries) = args {
        lemma_key_rewrites(tool_name, entries);
    }
}

/// The text under `key` in a payload, or `""` where there is no string there.
pub fn json_str<'a>(input: &'a JsonValue, key: &str) -> (text: &'a str)
    ensures
        text@ == text_or_empty(input@, key@),
{
    match input.get(key) {
        Some(v) => match v.as_str() {
            Some(s) => s,
            None => {
                proof {
                    reveal_strlit("");
                }
                ""
            },
        },
        None => {
            proof {
                reveal_strlit("");
            }
            ""
        },
    }
}

/// The text under `key` in a payload, where there is a string there.
pub fn optional_str(input: &JsonValue, key: &str) -> (text: Option<String>)
    ensures
        event::opt_text(text) == json::text_of(json::field(input@, key@)),
{
    match input.get(key) {
        Some(v) => match v.as_str() {
            Some(s) => Some(s.to_owned()),
            None => None,
        },
        None => None,
    }
}

/// A copy of the value under `key` in a payload, or null where there is none.
pub fn json_value_or_null(input: &JsonValue, key: &str) -> (value: JsonValue)
    ensures
        value@ == value_or_null(input@, key@),
{
    match input.get(key) {
        Some(v) => v.duplicate(),
        None => {
            let null = JsonValue::Null;
            proof {
                json::lemma_view_shape(null);
            }
            null
        },
    }
}

/// Copies, for each `(src, dst)` pair in turn, the value under `src` to
/// `dst`, unless `dst` is already there or `src` is not.
pub fn copy_keys(map: &mut JsonMap, pairs: &[(&str, &str)])
    ensures
        final(map)@ == copy_entries(old(map)@, pairs_view(pairs@)),
{
    let ghost all = pairs_view(pairs@);
    let ghost start = map@;
    let n = pairs.len();
    let mut i: usize = 0;
    proof {
        assert(all.take(0) =~= Seq::<(Seq<char>, Seq<char>)>::empty());
    }
    while i < n
        invariant
            n == pairs@.len(),
            all == pairs_view(pairs@),
            i <= n,
            map@ == copy_entries(start, all.take(i as int)),
        decreases n - i,
    {
        let (src, dst) = pairs[i];
        if !map.contains_key(dst) {
            let copied = match map.get(src) {
                Some(v) => Some(v.duplicate()),
                None => None,
            };
            match copied {
                Some(v) => map.insert(dst.to_owned(), v),
                None => {},
            }
        }
        proof {
            assert(all.take(i + 1).drop_last() =~= all.take(i as int));
            assert(all[i as int] == (src@, dst@));
        }
        i = i + 1;
    }
    proof {
        assert(all.take(n as int) =~= all);
    }
}

/// A tool's arguments in the keys that the shared label extractor expects.
/// The original keys stay, for consumers of the raw payload.
pub fn normalize_tool_input(tool_name: &str, input: JsonValue) -> (normalized: JsonValue)
    ensures
        normalized@ == normalized_input(tool_name@, input@),
{
    proof {
        json::lemma_view_shape(input);
    }
    match input {
        JsonValue::Object(mut map) => {
            let file_tool = str_eq(tool_name, "Read") || str_eq(tool_name, "Write") || str_eq(
                tool_name,
                "Edit",
            );
            let rewrites: Vec<(&str, &str)> = if file_tool {
                vec![("path", "file_path")]
            } else {
                Vec::new()
            };
            proof {
                assert(pairs_view(rewrites@) =~= key_rewrites(tool_name@));
            }
            copy_keys(&mut map, rewrites.as_slice());
            let normalized = JsonValue::Object(map);
            proof {
                json::lemma_view_shape(normalized);
            }
            normalized
        },
        other => other,
    }
}

/// The lifecycle event that a hook named `event_name` stands for, for the
/// agent named `agent`; `None` for any other hook.
pub fn parse_lifecycle(agent: &str, event_name: &str, input: &JsonValue) -> (event: Option<
    AgentEvent,
>)
    ensures
        event::event_view(event) == lifecycle_event(agent@, event_name@, input@),
{
    if str_eq(event_name, "session-start") {
        Some(
            AgentEvent::SessionStart {
                agent: agent.to_owned(),
                cwd: json_str(input, "cwd").to_owned(),
                permission_mode: String::new(),
                source: json_str(input, "source").to_owned(),
                worktree: None,
                agent_id: None,
                session_id: optional_str(input, "session_id"),
            },
        )
    } else if str_eq(event_name, "session-end") {
        Some(AgentEvent::SessionEnd { end_reason: json_str(input, "end_reason").to_owned() })
    } else if str_eq(event_name, "user-prompt-submit") {
        Some(
            AgentEvent::UserPromptSubmit {
                agent: agent.to_owned(),
                cwd: json_str(input, "cwd").to_owned(),
                permission_mode: String::new(),
                prompt: json_str(input, "prompt").to_owned(),
                worktree: None,
                agent_id: None,
                session_id: optional_str(input, "session_id"),
            },
        )
    } else if str_eq(event_name, "notification") {
        Some(
            AgentEvent::Notification {
                agent: agent.to_owned(),
                cwd: json_str(input, "cwd").to_owned(),
                permission_mode: String::new(),
                wait_reason: json_str(input, "wait_reason").to_owned(),
                meta_only: false,
                worktree: None,
                agent_id: None,
                session_id: optional_str(input, "session_id"),
            },
        )
    } else if str_eq(event_name, "stop") {
        Some(
            AgentEvent::Stop {
                agent: agent.to_owned(),
                cwd: json_str(input, "cwd").to_owned(),
                permission_mode: String::new(),
                last_message: json_str(input, "last_message").to_owned(),
                response: None,
                worktree: None,
                agent_id: None,
                session_id: optional_str(input, "session_id"),
            },
        )
    } else if str_eq(event_name, "stop-failure") {
        Some(
            AgentEvent::StopFailure {
                agent: agent.to_owned(),
                cwd: json_str(input, "cwd").to_owned(),
                permission_mode: String::new(),
                error: json_str(input, "error").to_owned(),
                worktree: None,
                agent_id: None,
                session_id: optional_str(input, "session_id"),
            },
        )
    } else {
        None
    }
}

} // verus!
