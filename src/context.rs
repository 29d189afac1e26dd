use vstd::prelude::*;

verus! {

/// A handle that, when invoked, asks the executor to poll one task again.
/// It names the task by its slot in the executor.
#[derive(Clone, Copy, Debug, PartialEq, Eq, Structural)]
pub struct WakeSignal {
    pub task: usize,
}

/// An observable effect that a task performs while it is polled.
/// Tasks never act on the world themselves: they record effects here and
/// the caller of the executor carries them out.
#[derive(Clone, Debug, PartialEq, Eq)]
pub enum Effect {
    /// A greeting for the given name.
    Greeted(String),
    /// A delay observed that its deadline had passed.
    DelayElapsed,
    /// A timer task looked at its completion cell.
    TimerPolled,
    /// A timer task found its cell not yet completed and parked.
    TimerPending,
}

/// What a task sees while it is polled: the signal that re-polls it, the
/// current time in milliseconds, whether it asked to be polled again at
/// once, and the effects it has performed so far.
pub struct Context {
    pub waker: WakeSignal,
    pub now: u64,
    pub wake_requested: bool,
    pub effects: Vec<Effect>,
}

impl Context {
    pub fn new(waker: WakeSignal, now: u64) -> (r: Context)
        ensures
            r.waker == waker,
            r.now == now,
            !r.wake_requested,
            r.effects@ == Seq::<Effect>::empty(),
    {
        Context { waker, now, wake_requested: false, effects: Vec::new() }
    }

    /// Asks for the polled task to be polled again, without waiting for
    /// an outside event.
    pub fn wake_by_ref(&mut self)
        ensures
            final(self).wake_requested,
            final(self).waker == old(self).waker,
            final(self).now == old(self).now,
            final(self).effects@ == old(self).effects@,
    {
        self.wake_requested = true;
    }

    /// Records one effect, after those already recorded.
    pub fn emit(&mut self, e: Effect)
        ensures
            final(self).effects@ == old(self).effects@.push(e),
            final(self).wake_requested == old(self).wake_requested,
            final(self).waker == old(self).waker,
            final(self).now == old(self).now,
    {
        self.effects.push(e);
    }
}

} // verus!
