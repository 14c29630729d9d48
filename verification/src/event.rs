//! The agent-neutral events that the sidebar consumes, and the interface
//! through which each agent's hook payloads become such events.

use vstd::prelude::*;

use crate::json::{JsonModel, JsonValue};

verus! {

/// An event of an agent's session, in the sidebar's own terms.
#[derive(Debug, PartialEq)]
pub enum AgentEvent {
    SessionStart {
        agent: String,
        cwd: String,
        permission_mode: String,
        source: String,
        worktree: Option<String>,
        agent_id: Option<String>,
        session_id: Option<String>,
    },
    SessionEnd { end_reason: String },
    UserPromptSubmit {
        agent: String,
        cwd: String,
        permission_mode: String,
        prompt: String,
        worktree: Option<String>,
        agent_id: Option<String>,
        session_id: Option<String>,
    },
    Notification {
        agent: String,
        cwd: String,
        permission_mode: String,
        wait_reason: String,
        meta_only: bool,
        worktree: Option<String>,
        agent_id: Option<String>,
        session_id: Option<String>,
    },
    Stop {
        agent: String,
        cwd: String,
        permission_mode: String,
        last_message: String,
        response: Option<String>,
        worktree: Option<String>,
        agent_id: Option<String>,
        session_id: Option<String>,
    },
    StopFailure {
        agent: String,
        cwd: String,
        permission_mode: String,
        error: String,
        worktree: Option<String>,
        agent_id: Option<String>,
        session_id: Option<String>,
    },
    ActivityLog { tool_name: String, tool_input: JsonValue, tool_response: JsonValue },
}

/// The mathematical value of an [`AgentEvent`].
pub enum EventModel {
    SessionStart {
        agent: Seq<char>,
        cwd: Seq<char>,
        permission_mode: Seq<char>,
        source: Seq<char>,
        worktree: Option<Seq<char>>,
        agent_id: Option<Seq<char>>,
        session_id: Option<Seq<char>>,
    },
    SessionEnd { end_reason: Seq<char> },
    UserPromptSubmit {
        agent: Seq<char>,
        cwd: Seq<char>,
        permission_mode: Seq<char>,
        prompt: Seq<char>,
        worktree: Option<Seq<char>>,
        agent_id: Option<Seq<char>>,
        session_id: Option<Seq<char>>,
    },
    Notification {
        agent: Seq<char>,
        cwd: Seq<char>,
        permission_mode: Seq<char>,
        wait_reason: Seq<char>,
        meta_only: bool,
        worktree: Option<Seq<char>>,
        agent_id: Option<Seq<char>>,
        session_id: Option<Seq<char>>,
    },
    Stop {
        agent: Seq<char>,
        cwd: Seq<char>,
        permission_mode: Seq<char>,
        last_message: Seq<char>,
        response: Option<Seq<char>>,
        worktree: Option<Seq<char>>,
        agent_id: Option<Seq<char>>,
        session_id: Option<Seq<char>>,
    },
    StopFailure {
        agent: Seq<char>,
        cwd: Seq<char>,
        permission_mode: Seq<char>,
        error: Seq<char>,
        worktree: Option<Seq<char>>,
        agent_id: Option<Seq<char>>,
        session_id: Option<Seq<char>>,
    },
    ActivityLog { tool_name: Seq<char>, tool_input: JsonModel, tool_response: JsonModel },
}

/// The text of an optional string.
pub open spec fn opt_text(s: Option<String>) -> Option<Seq<char>> {
    match s {
        Some(s) => Some(s@),
        None => None,
    }
}

impl View for AgentEvent {
    type V = EventModel;

    open spec fn view(&self) -> EventModel {
        match self {
            AgentEvent::SessionStart {
                agent,
                cwd,
                permission_mode,
                source,
                worktree,
                agent_id,
                session_id,
            } => EventModel::SessionStart {
                agent: agent@,
                cwd: cwd@,
                permission_mode: permission_mode@,
                source: source@,
                worktree: opt_text(*worktree),
                agent_id: opt_text(*agent_id),
                session_id: opt_text(*session_id),
            },
            AgentEvent::SessionEnd { end_reason } => EventModel::SessionEnd {
                end_reason: end_reason@,
            },
            AgentEvent::UserPromptSubmit {
                agent,
                cwd,
                permission_mode,
                prompt,
                worktree,
                agent_id,
                session_id,
            } => EventModel::UserPromptSubmit {
                agent: agent@,
                cwd: cwd@,
                permission_mode: permission_mode@,
                prompt: prompt@,
                worktree: opt_text(*worktree),
                agent_id: opt_text(*agent_id),
                session_id: opt_text(*session_id),
            },
            AgentEvent::Notification {
                agent,
                cwd,
                permission_mode,
                wait_reason,
                meta_only,
                worktree,
                agent_id,
                session_id,
            } => EventModel::Notification {
                agent: agent@,
                cwd: cwd@,
                permission_mode: permission_mode@,
                wait_reason: wait_reason@,
                meta_only: *meta_only,
                worktree: opt_text(*worktree),
                agent_id: opt_text(*agent_id),
                session_id: opt_text(*session_id),
            },
            AgentEvent::Stop {
                agent,
                cwd,
                permission_mode,
                last_message,
                response,
                worktree,
                agent_id,
                session_id,
            } => EventModel::Stop {
                agent: agent@,
                cwd: cwd@,
                permission_mode: permission_mode@,
                last_message: last_message@,
                response: opt_text(*response),
                worktree: opt_text(*worktree),
                agent_id: opt_text(*agent_id),
                session_id: opt_text(*session_id),
            },
            AgentEvent::StopFailure {
                agent,
                cwd,
                permission_mode,
                error,
                worktree,
                agent_id,
                session_id,
            } => EventModel::StopFailure {
                agent: agent@,
                cwd: cwd@,
                permission_mode: permission_mode@,
                error: error@,
                worktree: opt_text(*worktree),
                agent_id: opt_text(*agent_id),
                session_id: opt_text(*session_id),
            },
            AgentEvent::ActivityLog { tool_name, tool_input, tool_response } => {
                EventModel::ActivityLog {
                    tool_name: tool_name@,
                    tool_input: tool_input@,
                    tool_response: tool_response@,
                }
            },
        }
    }
}

/// The value of an optional event.
pub open spec fn event_view(event: Option<AgentEvent>) -> Option<EventModel> {
    match event {
        Some(e) => Some(e@),
        None => None,
    }
}

/// Turns one agent's hook payloads into sidebar events.
pub trait EventAdapter {
    /// The event that a hook named `event_name` with payload `input` stands
    /// for, if the adapter handles it.
    spec fn event_for(&self, event_name: Seq<char>, input: JsonModel) -> Option<EventModel>;

    /// The event that a hook named `event_name` with payload `input` stands
    /// for, or `None` where the adapter does not handle it.
    fn parse(&self, event_name: &str, input: &JsonValue) -> (event: Option<AgentEvent>)
        ensures
            event_view(event) == self.event_for(event_name@, input@),
    ;
}

} // verus!
