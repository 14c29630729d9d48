//! The names under which the sidebar shows each agent's panes.

use vstd::prelude::*;

verus! {

/// The agent name of Pi panes.
pub const PI_AGENT: &'static str = "pi";

/// The agent name of Smelt panes.
pub const SMELT_AGENT: &'static str = "smelt";

} // verus!
