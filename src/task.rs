use vstd::prelude::*;
use crate::completion::SharedCompletion;
use crate::context::{Context, Effect, WakeSignal};
use crate::outcome::{Outcome, PollResult, TaskError};
use crate::tasks::{Delay, Hello, MainFuture, TimerFuture};

verus! {

/// Any of the library's tasks, behind one poll operation.
#[derive(Debug, PartialEq, Eq)]
pub enum Task {
    Hello(Hello),
    Delay(Delay),
    Timer(TimerFuture),
    Sequence(MainFuture),
}

impl Task {
    /// Every completion cell that the task names lies in a table of `n` cells.
    pub open spec fn cells_ok(self, n: nat) -> bool {
        match self {
            Task::Timer(t) => t.cell < n,
            _ => true,
        }
    }

    pub open spec fn poll_result(self, now: u64, cells: Seq<SharedCompletion>) -> PollResult<()> {
        match self {
            Task::Hello(h) => h.poll_result(),
            Task::Delay(d) => d.poll_result(now),
            Task::Timer(t) => t.poll_result(cells),
            Task::Sequence(m) => m.poll_result(now),
        }
    }

    pub open spec fn poll_next(self, now: u64, cells: Seq<SharedCompletion>) -> Task {
        match self {
            Task::Hello(_) => Task::Hello(Hello::Done),
            Task::Delay(d) => Task::Delay(d.poll_next(now)),
            Task::Timer(t) => Task::Timer(t.poll_next(cells)),
            Task::Sequence(m) => Task::Sequence(m.poll_next(now)),
        }
    }

    pub open spec fn poll_effects(self, now: u64, cells: Seq<SharedCompletion>) -> Seq<Effect> {
        match self {
            Task::Hello(h) => h.poll_effects(),
            Task::Delay(d) => d.poll_effects(now),
            Task::Timer(t) => t.poll_effects(cells),
            Task::Sequence(m) => m.poll_effects(now),
        }
    }

    pub open spec fn poll_wakes(self, now: u64) -> bool {
        match self {
            Task::Delay(d) => d.poll_wakes(now),
            Task::Sequence(m) => m.poll_wakes(now),
            _ => false,
        }
    }

    pub open spec fn poll_cells(self, w: WakeSignal, cells: Seq<SharedCompletion>) -> Seq<
        SharedCompletion,
    > {
        match self {
            Task::Timer(t) => t.poll_cells(w, cells),
            _ => cells,
        }
    }

    /// One poll of whichever task this is.
    pub fn poll(&mut self, cx: &mut Context, cells: &mut Vec<SharedCompletion>) -> (r: PollResult<
        (),
    >)
        requires
            old(self).cells_ok(old(cells)@.len()),
        ensures
            r == old(self).poll_result(old(cx).now, old(cells)@),
            *final(self) == old(self).poll_next(old(cx).now, old(cells)@),
            final(cells)@ == old(self).poll_cells(old(cx).waker, old(cells)@),
            final(cx).effects@ == old(cx).effects@ + old(self).poll_effects(
                old(cx).now,
                old(cells)@,
            ),
            final(cx).wake_requested == (old(cx).wake_requested || old(self).poll_wakes(
                old(cx).now,
            )),
            final(cx).waker == old(cx).waker,
            final(cx).now == old(cx).now,
    {
        match self {
            Task::Hello(h) => h.poll(cx),
            Task::Delay(d) => d.poll(cx),
            Task::Timer(t) => t.poll(cx, cells),
            Task::Sequence(m) => m.poll(cx),
        }
    }
}

} // verus!
