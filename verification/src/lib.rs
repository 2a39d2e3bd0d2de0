//! A verified core for a "watch a path, re-run a command" tool.
//!
//! The library holds the decision logic of the tool: which filesystem
//! notifications qualify for a dispatch, how rapid events are coalesced
//! under a rate limit, and how the control loop reacts to notifications,
//! receive errors and dispatch outcomes. The surrounding process performs
//! the actual watching and command execution and feeds the results back
//! as plain values.

pub mod config;
pub mod control;
pub mod debounce;
pub mod event;
