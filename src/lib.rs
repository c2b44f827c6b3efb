//! A durable task runner: tasks are multi-step state machines whose state
//! lives in a table; workers select due tasks, run one step at a time and
//! record each step's outcome.
//!
//! This crate holds the rules of the runner: when a task is due, what the
//! outcome of a step does to its row, which row the dispatcher picks, how
//! stale leases are cleared and how wake-ups are latched.
pub mod time;
pub mod task;
pub mod executor;
pub mod store;
pub mod dispatch;
pub mod notifier;
pub mod worker;
