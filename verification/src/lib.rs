//! The environment context that a coding agent reports to its model at the
//! start of a turn (working directory, environments, shell, date, time zone,
//! network policy and subagents), its XML rendering, and the pure parts of
//! the agent identity runtime state.

pub mod path;
pub mod shell;
pub mod text;
pub mod fragment;
pub mod turn_context;
pub mod environment_context;
pub mod xml;
pub mod agent_identity;
pub mod laws;
