use vstd::prelude::*;
use crate::completion::SharedCompletion;
use crate::context::Context;
use crate::outcome::{Outcome, PollResult, TaskError};
use crate::task::Task;

verus! {

/// Milliseconds from `start` to `now`; a clock read that went back gives zero.
pub open spec fn elapsed_ms(start: u64, now: u64) -> u64 {
    if now >= start {
        (now - start) as u64
    } else {
        0
    }
}

/// Wraps a task and measures it: its output comes with the time from its
/// first poll to the poll on which it ended.
pub struct TimedWrapper<Fut> {
    /// When the wrapped task was first polled.
    pub start: Option<u64>,
    pub future: Fut,
    /// Whether the wrapped task has ended; a wrapper is not polled after that.
    pub done: bool,
}

impl<Fut> TimedWrapper<Fut> {
    /// Wraps `future`. No time is read until the first poll.
    pub fn new(future: Fut) -> (r: Self)
        ensures
            r.start is None,
            r.future == future,
            !r.done,
    {
        TimedWrapper { future, start: None, done: false }
    }

    /// The start time a poll at `now` measures from.
    pub fn is_done(&self) -> (r: bool)
        ensures
            r == self.done,
    {
        self.done
    }

    pub open spec fn start_at(self, now: u64) -> u64 {
        match self.start {
            Some(s) => s,
            None => now,
        }
    }

    /// Called before the wrapped task is polled: the first call records
    /// `now` as the start, later calls keep the first start. Returns it.
    pub fn begin(&mut self, now: u64) -> (start: u64)
        ensures
            start == old(self).start_at(now),
            final(self).start == Some(start),
            final(self).future == old(self).future,
            final(self).done == old(self).done,
    {
        match self.start {
            Some(s) => s,
            None => {
                self.start = Some(now);
                now
            },
        }
    }

    /// Called after the wrapped task was polled, with its outcome: pending
    /// stays pending; a value comes back with the time elapsed since the
    /// start, and the wrapper is then done.
    pub fn finish<T>(&mut self, now: u64, inner: Outcome<T>) -> (r: Outcome<(T, u64)>)
        ensures
            match inner {
                Outcome::Ready(v) => r == Outcome::Ready(
                    (v, elapsed_ms(old(self).start_at(now), now)),
                ),
                Outcome::Pending => r is Pending,
            },
            final(self).done == (old(self).done || inner is Ready),
            final(self).start == old(self).start,
            final(self).future == old(self).future,
    {
        let start = match self.start {
            Some(s) => s,
            None => now,
        };
        match inner {
            Outcome::Pending => Outcome::Pending,
            Outcome::Ready(v) => {
                self.done = true;
                Outcome::Ready((v, now.saturating_sub(start)))
            },
        }
    }
}

impl TimedWrapper<Task> {
    /// One poll of the wrapped library task, measured with the context's
    /// clock. Once the wrapped task has ended, a poll is an error and does
    /// not poll the task again.
    pub fn poll(&mut self, cx: &mut Context, cells: &mut Vec<SharedCompletion>) -> (r: PollResult<
        ((), u64),
    >)
        requires
            old(self).future.cells_ok(old(cells)@.len()),
        ensures
            old(self).done ==> {
                &&& r == Err::<Outcome<((), u64)>, TaskError>(TaskError::PolledAfterCompletion)
                &&& *final(self) == *old(self)
                &&& final(cells)@ == old(cells)@
                &&& *final(cx) == *old(cx)
            },
            !old(self).done ==> {
                &&& final(self).start == Some(old(self).start_at(old(cx).now))
                &&& final(self).future == old(self).future.poll_next(old(cx).now, old(cells)@)
                &&& final(self).done == !(r matches Ok(Outcome::Pending))
                &&& final(cells)@ == old(self).future.poll_cells(old(cx).waker, old(cells)@)
                &&& final(cx).effects@ == old(cx).effects@ + old(self).future.poll_effects(
                    old(cx).now,
                    old(cells)@,
                )
                &&& final(cx).wake_requested == (old(cx).wake_requested
                    || old(self).future.poll_wakes(old(cx).now))
                &&& final(cx).waker == old(cx).waker
                &&& final(cx).now == old(cx).now
                &&& match old(self).future.poll_result(old(cx).now, old(cells)@) {
                    Ok(Outcome::Ready(_)) => r == Ok::<Outcome<((), u64)>, TaskError>(
                        Outcome::Ready(
                            ((), elapsed_ms(old(self).start_at(old(cx).now), old(cx).now)),
                        ),
                    ),
                    Ok(Outcome::Pending) => r matches Ok(Outcome::Pending),
                    Err(e) => r == Err::<Outcome<((), u64)>, TaskError>(e),
                }
            },
    {
        if self.done {
            return Err(TaskError::PolledAfterCompletion);
        }
        let now = cx.now;
        self.begin(now);
        match self.future.poll(cx, cells) {
            Ok(inner) => Ok(self.finish(now, inner)),
            Err(e) => {
                self.done = true;
                Err(e)
            },
        }
    }
}

} // verus!
