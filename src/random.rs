use vstd::prelude::*;
use crate::outcome::{Outcome, PollResult, TaskError};

verus! {

/// Relies on rand::random: draws a value from the thread-local generator.
/// Nothing is known of the value drawn.
pub assume_specification<T>[ rand::random::<T> ]() -> T
    where
        rand::distributions::Standard: rand::distributions::Distribution<T>,
;

/// A task that is ready on its first poll, with a random number. A poll
/// after that is an error.
#[derive(Clone, Copy, Debug, Default, PartialEq, Eq, Structural)]
pub struct RandFuture {
    pub done: bool,
}

impl RandFuture {
    pub fn new() -> (r: RandFuture)
        ensures
            !r.done,
    {
        RandFuture { done: false }
    }

    /// Ends the task with the drawn value `v`, unless it has ended already.
    pub fn resolve(&mut self, v: u16) -> (r: PollResult<u16>)
        ensures
            !old(self).done ==> r == Ok::<Outcome<u16>, TaskError>(Outcome::Ready(v)),
            old(self).done ==> r == Err::<Outcome<u16>, TaskError>(TaskError::PolledAfterCompletion),
            final(self).done,
    {
        if self.done {
            Err(TaskError::PolledAfterCompletion)
        } else {
            self.done = true;
            Ok(Outcome::Ready(v))
        }
    }

    /// Draws a number and ends with it; whatever number was drawn, the
    /// first poll is ready and a later poll is an error.
    pub fn poll(&mut self) -> (r: PollResult<u16>)
        ensures
            !old(self).done ==> r matches Ok(Outcome::Ready(_)),
            old(self).done ==> r == Err::<Outcome<u16>, TaskError>(TaskError::PolledAfterCompletion),
            final(self).done,
    {
        let v: u16 = rand::random::<u16>();
        self.resolve(v)
    }
}

} // verus!
