use vstd::prelude::*;

verus! {

/// What one poll of a task reports: a final value, or "not yet".
#[derive(Clone, Copy, Debug, PartialEq, Eq)]
pub enum Outcome<T> {
    Ready(T),
    Pending,
}

impl<T> Outcome<T> {
    pub fn is_ready(&self) -> (r: bool)
        ensures
            r == (self is Ready),
    {
        match self {
            Outcome::Ready(_) => true,
            Outcome::Pending => false,
        }
    }

    pub fn is_pending(&self) -> (r: bool)
        ensures
            r == (self is Pending),
    {
        match self {
            Outcome::Ready(_) => false,
            Outcome::Pending => true,
        }
    }
}

/// The ways a task can end without producing its value.
#[derive(Clone, Copy, Debug, PartialEq, Eq, Structural)]
pub enum TaskError {
    /// A task was polled again after it had already returned `Ready`.
    PolledAfterCompletion,
    /// The task's handle was cancelled before the task finished.
    TaskAborted,
    /// A child of a composite task failed; the composite fails with it.
    ChildTaskFailed,
}

/// The result of one poll of a task that may fail.
pub type PollResult<T> = Result<Outcome<T>, TaskError>;

} // verus!
