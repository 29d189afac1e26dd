use vstd::prelude::*;
use crate::completion::SharedCompletion;
use crate::context::{Context, Effect};
use crate::outcome::{Outcome, PollResult, TaskError};
use crate::task::Task;

verus! {

/// Two tasks run side by side: every poll of the pair polls each child
/// that has not yet finished, and the pair is ready once both are.
pub struct Join {
    pub a: Task,
    pub b: Task,
    pub a_done: bool,
    pub b_done: bool,
    pub finished: bool,
}

/// Pairs two tasks. Neither is polled until the pair is.
pub fn join(a: Task, b: Task) -> (r: Join)
    ensures
        r.a == a,
        r.b == b,
        !r.a_done,
        !r.b_done,
        !r.finished,
{
    Join { a, b, a_done: false, b_done: false, finished: false }
}

impl Join {
    pub open spec fn cells_ok(self, n: nat) -> bool {
        self.a.cells_ok(n) && self.b.cells_ok(n)
    }

    /// Whether a poll at this state polls the first child.
    pub open spec fn polls_a(self) -> bool {
        !self.finished && !self.a_done
    }

    /// What the first child reports in a poll (a finished child counts as ready).
    pub open spec fn a_result(self, now: u64, cells: Seq<SharedCompletion>) -> PollResult<()> {
        if self.polls_a() {
            self.a.poll_result(now, cells)
        } else {
            Ok(Outcome::Ready(()))
        }
    }

    /// The cells once the first child has been polled.
    pub open spec fn mid_cells(self, cx: Context, cells: Seq<SharedCompletion>) -> Seq<
        SharedCompletion,
    > {
        if self.polls_a() {
            self.a.poll_cells(cx.waker, cells)
        } else {
            cells
        }
    }

    /// Whether a poll at this state polls the second child.
    pub open spec fn polls_b(self, now: u64, cells: Seq<SharedCompletion>) -> bool {
        !self.finished && !self.b_done && !(self.a_result(now, cells) is Err)
    }

    pub open spec fn b_result(self, cx: Context, cells: Seq<SharedCompletion>) -> PollResult<()> {
        if self.polls_b(cx.now, cells) {
            self.b.poll_result(cx.now, self.mid_cells(cx, cells))
        } else {
            Ok(Outcome::Ready(()))
        }
    }

    pub open spec fn poll_result(self, cx: Context, cells: Seq<SharedCompletion>) -> PollResult<
        (),
    > {
        if self.finished {
            Err(TaskError::PolledAfterCompletion)
        } else if self.a_result(cx.now, cells) is Err {
            Err(TaskError::ChildTaskFailed)
        } else if self.b_result(cx, cells) is Err {
            Err(TaskError::ChildTaskFailed)
        } else if (self.a_done || self.a_result(cx.now, cells) matches Ok(Outcome::Ready(_))) && (
        self.b_done || self.b_result(cx, cells) matches Ok(Outcome::Ready(_))) {
            Ok(Outcome::Ready(()))
        } else {
            Ok(Outcome::Pending)
        }
    }

    pub open spec fn poll_cells(self, cx: Context, cells: Seq<SharedCompletion>) -> Seq<
        SharedCompletion,
    > {
        if self.polls_b(cx.now, cells) {
            self.b.poll_cells(cx.waker, self.mid_cells(cx, cells))
        } else {
            self.mid_cells(cx, cells)
        }
    }

    pub open spec fn poll_effects(self, cx: Context, cells: Seq<SharedCompletion>) -> Seq<Effect> {
        (if self.polls_a() {
            self.a.poll_effects(cx.now, cells)
        } else {
            Seq::empty()
        }) + (if self.polls_b(cx.now, cells) {
            self.b.poll_effects(cx.now, self.mid_cells(cx, cells))
        } else {
            Seq::empty()
        })
    }

    pub open spec fn poll_wakes(self, cx: Context, cells: Seq<SharedCompletion>) -> bool {
        (self.polls_a() && self.a.poll_wakes(cx.now)) || (self.polls_b(cx.now, cells)
            && self.b.poll_wakes(cx.now))
    }

    /// Polls each unfinished child, the first before the second. A child
    /// that has finished is never polled again. The first failure of a
    /// child ends the pair with `ChildTaskFailed`; a poll after the pair
    /// has ended is an error.
    pub fn poll(&mut self, cx: &mut Context, cells: &mut Vec<SharedCompletion>) -> (r: PollResult<
        (),
    >)
        requires
            old(self).cells_ok(old(cells)@.len()),
        ensures
            r == old(self).poll_result(*old(cx), old(cells)@),
            final(self).a == (if old(self).polls_a() {
                old(self).a.poll_next(old(cx).now, old(cells)@)
            } else {
                old(self).a
            }),
            final(self).b == (if old(self).polls_b(old(cx).now, old(cells)@) {
                old(self).b.poll_next(old(cx).now, old(self).mid_cells(*old(cx), old(cells)@))
            } else {
                old(self).b
            }),
            final(self).a_done == (old(self).a_done || (old(self).polls_a() && old(
                self,
            ).a_result(old(cx).now, old(cells)@) matches Ok(Outcome::Ready(_)))),
            final(self).b_done == (old(self).b_done || (old(self).polls_b(old(cx).now, old(cells)@)
                && old(self).b_result(*old(cx), old(cells)@) matches Ok(Outcome::Ready(_)))),
            final(self).finished == !(r matches Ok(Outcome::Pending)),
            final(cells)@ == old(self).poll_cells(*old(cx), old(cells)@),
            final(cx).effects@ == old(cx).effects@ + old(self).poll_effects(*old(cx), old(cells)@),
            final(cx).wake_requested == (old(cx).wake_requested || old(self).poll_wakes(
                *old(cx),
                old(cells)@,
            )),
            final(cx).waker == old(cx).waker,
            final(cx).now == old(cx).now,
    {
        if self.finished {
            assert(old(cx).effects@ + Seq::<Effect>::empty() + Seq::<Effect>::empty()
                =~= old(cx).effects@);
            return Err(TaskError::PolledAfterCompletion);
        }
        if !self.a_done {
            match self.a.poll(cx, cells) {
                Ok(Outcome::Ready(())) => {
                    self.a_done = true;
                },
                Ok(Outcome::Pending) => {},
                Err(_) => {
                    self.finished = true;
                    assert(cx.effects@ + Seq::<Effect>::empty() =~= cx.effects@);
                    return Err(TaskError::ChildTaskFailed);
                },
            }
        }
        let ghost mid_effects = cx.effects@;
        assert(mid_effects =~= old(cx).effects@ + (if old(self).polls_a() {
            old(self).a.poll_effects(old(cx).now, old(cells)@)
        } else {
            Seq::empty()
        }));
        if !self.b_done {
            match self.b.poll(cx, cells) {
                Ok(Outcome::Ready(())) => {
                    self.b_done = true;
                },
                Ok(Outcome::Pending) => {},
                Err(_) => {
                    self.finished = true;
                    assert(cx.effects@ =~= old(cx).effects@ + old(self).poll_effects(
                        *old(cx),
                        old(cells)@,
                    ));
                    return Err(TaskError::ChildTaskFailed);
                },
            }
        }
        assert(cx.effects@ =~= old(cx).effects@ + old(self).poll_effects(*old(cx), old(cells)@));
        if self.a_done && self.b_done {
            self.finished = true;
            Ok(Outcome::Ready(()))
        } else {
            Ok(Outcome::Pending)
        }
    }
}

/// A pair that has ended (after `Ready` or a failure) answers every later
/// poll with `PolledAfterCompletion` and polls neither child again.
pub proof fn lemma_join_single_terminal(j: Join, cx: Context, cells: Seq<SharedCompletion>)
    requires
        j.finished,
    ensures
        j.poll_result(cx, cells) == Err::<Outcome<()>, TaskError>(TaskError::PolledAfterCompletion),
        !j.polls_a(),
        !j.polls_b(cx.now, cells),
        j.poll_effects(cx, cells) =~= Seq::<Effect>::empty(),
        j.poll_cells(cx, cells) == cells,
{
}

/// A child that has finished is not polled again, and the pair is ready
/// exactly when the poll leaves both children finished without a failure.
pub proof fn lemma_join_completeness(j: Join, cx: Context, cells: Seq<SharedCompletion>)
    requires
        !j.finished,
    ensures
        j.a_done ==> !j.polls_a(),
        j.b_done ==> !j.polls_b(cx.now, cells),
        (j.poll_result(cx, cells) matches Ok(Outcome::Ready(_))) == (!(j.a_result(cx.now, cells) is Err)
            && !(j.b_result(cx, cells) is Err) && (j.a_done || j.a_result(cx.now, cells) matches Ok(
            Outcome::Ready(_),
        )) && (j.b_done || j.b_result(cx, cells) matches Ok(Outcome::Ready(_)))),
{
}

} // verus!
