//! Event adapters that turn the hook payloads of the Pi and Smelt coding
//! agents into the sidebar's agent-neutral events, with every step verified.

pub mod text;
pub mod json;
pub mod tmux;
pub mod tool_name;
pub mod event;
pub mod adapter;
