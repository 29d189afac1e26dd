use vstd::prelude::*;
use crate::context::{Context, WakeSignal};
use crate::outcome::Outcome;

verus! {

/// The cell that an outside producer (a timer thread, an I/O completion)
/// shares with the task that waits for it. The producer sets `completed`
/// and takes the stored signal; the task reads `completed` and, while it
/// is false, leaves its own signal behind. Only the latest signal is kept.
#[derive(Clone, Copy, Debug, PartialEq, Eq, Structural)]
pub struct SharedCompletion {
    pub completed: bool,
    pub pending_wake: Option<WakeSignal>,
}

impl SharedCompletion {
    /// The cell as it is made: not completed, no signal stored.
    pub open spec fn initial() -> SharedCompletion {
        SharedCompletion { completed: false, pending_wake: None }
    }

    /// The cell after a poll by a task whose signal is `w`.
    pub open spec fn after_poll(self, w: WakeSignal) -> SharedCompletion {
        if self.completed {
            self
        } else {
            SharedCompletion { completed: false, pending_wake: Some(w) }
        }
    }

    /// The cell after the producer has marked it complete.
    pub open spec fn after_complete(self) -> SharedCompletion {
        SharedCompletion { completed: true, pending_wake: None }
    }

    pub fn new() -> (r: SharedCompletion)
        ensures
            r == SharedCompletion::initial(),
    {
        SharedCompletion { completed: false, pending_wake: None }
    }

    /// One poll of the cell: `Ready` once it is completed; otherwise the
    /// context's signal replaces any earlier one and the poll is `Pending`.
    pub fn poll_with(&mut self, cx: &Context) -> (r: Outcome<()>)
        ensures
            (r is Ready) == old(self).completed,
            *final(self) == old(self).after_poll(cx.waker),
    {
        if self.completed {
            Outcome::Ready(())
        } else {
            self.pending_wake = Some(cx.waker);
            Outcome::Pending
        }
    }

    /// The producer's side: marks the cell complete and takes the stored
    /// signal, which the caller invokes once it no longer holds the cell.
    pub fn mark_complete(&mut self) -> (w: Option<WakeSignal>)
        ensures
            w == old(self).pending_wake,
            *final(self) == old(self).after_complete(),
    {
        let w = self.pending_wake;
        self.completed = true;
        self.pending_wake = None;
        w
    }

    pub fn is_completed(&self) -> (r: bool)
        ensures
            r == self.completed,
    {
        self.completed
    }
}

/// A completion that happens before the first poll is not lost: the first
/// poll of a cell that was marked complete while fresh is `Ready`.
pub proof fn lemma_completion_before_poll(w: WakeSignal)
    ensures
        SharedCompletion::initial().after_complete().completed,
        SharedCompletion::initial().after_complete().after_poll(w)
            == SharedCompletion::initial().after_complete(),
{
}

/// A signal installed by a pending poll is handed to the producer by the
/// completion, and only once: a second completion hands nothing; the next
/// poll after the completion is `Ready`.
pub proof fn lemma_wake_after_install(s: SharedCompletion, w: WakeSignal)
    requires
        !s.completed,
    ensures
        !s.after_poll(w).completed,
        s.after_poll(w).pending_wake == Some(w),
        s.after_poll(w).after_complete().pending_wake is None,
        s.after_poll(w).after_complete().completed,
{
}

} // verus!
