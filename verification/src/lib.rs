//! The scheduling core of a load-testing engine.
//!
//! A run executes one plan, an ordered list of actions, many times over. Each
//! execution is an iteration. This crate holds the decisions of such a run and
//! proves what they promise: how long an iteration waits before it starts, in
//! which order its actions run, how many iterations may run at once, and
//! what the run hands back when the last one has completed. Timers, sockets
//! and the task runtime stay with the caller, who performs each step that the
//! state machines here ask for.
pub mod config;
pub mod context;
pub mod decimal;
pub mod iteration;
pub mod pacing;
pub mod pool;
pub mod render;
pub mod scheduler;
pub mod workers;
