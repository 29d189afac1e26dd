//! A small cooperative future/executor core, written as explicit state
//! machines: a two-state poll outcome, wake signals that name the task to
//! re-poll, a completion cell shared between a producer and a task, hand
//! written sequential and parallel composition, and a single-threaded FIFO
//! executor that drives tasks by their wake signals.
pub mod outcome;
pub mod context;
pub mod completion;
pub mod tasks;
pub mod task;
pub mod join;
pub mod executor;
pub mod timed;
pub mod random;
