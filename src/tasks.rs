use vstd::prelude::*;
use crate::completion::SharedCompletion;
use crate::context::{Context, Effect, WakeSignal};
use crate::outcome::{Outcome, PollResult, TaskError};

verus! {

/// How long the sequential task waits after its setup, in milliseconds.
pub const STAGE_DELAY_MS: u64 = 10;

/// A task that greets a name on its first poll and is then done.
#[derive(Debug, PartialEq, Eq)]
pub enum Hello {
    Init { name: String },
    Done,
}

/// Makes a greeting task for `name`. Nothing is greeted until it is polled.
pub fn hello(name: &str) -> (r: Hello)
    ensures
        r matches Hello::Init { name: n } && n@ == name@,
{
    Hello::Init { name: name.to_owned() }
}

impl Hello {
    pub open spec fn poll_result(self) -> PollResult<()> {
        match self {
            Hello::Init { .. } => Ok(Outcome::Ready(())),
            Hello::Done => Err(TaskError::PolledAfterCompletion),
        }
    }

    pub open spec fn poll_effects(self) -> Seq<Effect> {
        match self {
            Hello::Init { name } => seq![Effect::Greeted(name)],
            Hello::Done => Seq::empty(),
        }
    }

    /// Greets on the first poll; any later poll is an error and greets
    /// no one.
    pub fn poll(&mut self, cx: &mut Context) -> (r: PollResult<()>)
        ensures
            r == old(self).poll_result(),
            *final(self) is Done,
            final(cx).effects@ == old(cx).effects@ + old(self).poll_effects(),
            final(cx).wake_requested == old(cx).wake_requested,
            final(cx).waker == old(cx).waker,
            final(cx).now == old(cx).now,
    {
        let mut prev = Hello::Done;
        std::mem::swap(self, &mut prev);
        match prev {
            Hello::Init { name } => {
                let ghost e = Effect::Greeted(name);
                cx.emit(Effect::Greeted(name));
                assert(seq![e] =~= old(self).poll_effects());
                Ok(Outcome::Ready(()))
            },
            Hello::Done => {
                assert(old(cx).effects@ + Seq::<Effect>::empty() =~= old(cx).effects@);
                Err(TaskError::PolledAfterCompletion)
            },
        }
    }
}

/// A task that is ready once the clock has reached `when`. Until then each
/// poll asks to be polled again at once. After it has been ready, a poll
/// is an error.
#[derive(Clone, Copy, Debug, PartialEq, Eq, Structural)]
pub struct Delay {
    pub when: u64,
    pub done: bool,
}

impl Delay {
    pub fn new(when: u64) -> (r: Delay)
        ensures
            r.when == when,
            !r.done,
    {
        Delay { when, done: false }
    }

    pub open spec fn is_due(self, now: u64) -> bool {
        now >= self.when
    }

    pub open spec fn poll_result(self, now: u64) -> PollResult<()> {
        if self.done {
            Err(TaskError::PolledAfterCompletion)
        } else if self.is_due(now) {
            Ok(Outcome::Ready(()))
        } else {
            Ok(Outcome::Pending)
        }
    }

    pub open spec fn poll_next(self, now: u64) -> Delay {
        if !self.done && self.is_due(now) {
            Delay { when: self.when, done: true }
        } else {
            self
        }
    }

    pub open spec fn poll_effects(self, now: u64) -> Seq<Effect> {
        if !self.done && self.is_due(now) {
            seq![Effect::DelayElapsed]
        } else {
            Seq::empty()
        }
    }

    pub open spec fn poll_wakes(self, now: u64) -> bool {
        !self.done && !self.is_due(now)
    }

    pub fn poll(&mut self, cx: &mut Context) -> (r: PollResult<()>)
        ensures
            r == old(self).poll_result(old(cx).now),
            *final(self) == old(self).poll_next(old(cx).now),
            final(cx).effects@ == old(cx).effects@ + old(self).poll_effects(old(cx).now),
            final(cx).wake_requested == (old(cx).wake_requested || old(self).poll_wakes(
                old(cx).now,
            )),
            final(cx).waker == old(cx).waker,
            final(cx).now == old(cx).now,
    {
        if self.done {
            assert(old(cx).effects@ + Seq::<Effect>::empty() =~= old(cx).effects@);
            Err(TaskError::PolledAfterCompletion)
        } else if cx.now >= self.when {
            self.done = true;
            cx.emit(Effect::DelayElapsed);
            assert(old(cx).effects@.push(Effect::DelayElapsed) =~= old(cx).effects@ + old(
                self,
            ).poll_effects(old(cx).now));
            Ok(Outcome::Ready(()))
        } else {
            cx.wake_by_ref();
            assert(old(cx).effects@ + Seq::<Effect>::empty() =~= old(cx).effects@);
            Ok(Outcome::Pending)
        }
    }
}

/// The deadline of the stage that a sequential task enters at `now`.
pub open spec fn stage_deadline(now: u64) -> u64 {
    if now as int + STAGE_DELAY_MS as int > u64::MAX as int {
        u64::MAX
    } else {
        (now + STAGE_DELAY_MS) as u64
    }
}

/// Two sequential steps written out as a state machine: a setup that
/// creates a delay, then waiting for that delay.
#[derive(Clone, Copy, Debug, PartialEq, Eq, Structural)]
pub enum MainFuture {
    /// Created, never polled.
    State0,
    /// Waiting for the delay.
    State1(Delay),
    /// Finished.
    Terminated,
}

impl MainFuture {
    pub fn new() -> (r: MainFuture)
        ensures
            r is State0,
    {
        MainFuture::State0
    }

    /// The stage that a poll at `now` works on: setup falls through to the
    /// waiting stage without returning.
    pub open spec fn entered(self, now: u64) -> MainFuture {
        match self {
            MainFuture::State0 => MainFuture::State1(Delay { when: stage_deadline(now), done: false }),
            _ => self,
        }
    }

    pub open spec fn poll_next(self, now: u64) -> MainFuture {
        match self.entered(now) {
            MainFuture::State1(d) => match d.poll_result(now) {
                Ok(Outcome::Pending) => MainFuture::State1(d.poll_next(now)),
                _ => MainFuture::Terminated,
            },
            s => s,
        }
    }

    pub open spec fn poll_result(self, now: u64) -> PollResult<()> {
        match self.entered(now) {
            MainFuture::State1(d) => match d.poll_result(now) {
                Ok(o) => Ok(o),
                Err(_) => Err(TaskError::ChildTaskFailed),
            },
            _ => Err(TaskError::PolledAfterCompletion),
        }
    }

    pub open spec fn poll_effects(self, now: u64) -> Seq<Effect> {
        match self.entered(now) {
            MainFuture::State1(d) => d.poll_effects(now),
            _ => Seq::empty(),
        }
    }

    pub open spec fn poll_wakes(self, now: u64) -> bool {
        match self.entered(now) {
            MainFuture::State1(d) => d.poll_wakes(now),
            _ => false,
        }
    }

    /// Advances as far as it can: sets up the delay if not yet done, then
    /// polls it. Returns `Ready` once, and an error on any poll after that.
    pub fn poll(&mut self, cx: &mut Context) -> (r: PollResult<()>)
        ensures
            r == old(self).poll_result(old(cx).now),
            *final(self) == old(self).poll_next(old(cx).now),
            final(cx).effects@ == old(cx).effects@ + old(self).poll_effects(old(cx).now),
            final(cx).wake_requested == (old(cx).wake_requested || old(self).poll_wakes(
                old(cx).now,
            )),
            final(cx).waker == old(cx).waker,
            final(cx).now == old(cx).now,
    {
        if let MainFuture::State0 = *self {
            let when = cx.now.saturating_add(STAGE_DELAY_MS);
            *self = MainFuture::State1(Delay::new(when));
        }
        match *self {
            MainFuture::State1(d) => {
                let mut child = d;
                match child.poll(cx) {
                    Ok(Outcome::Ready(())) => {
                        *self = MainFuture::Terminated;
                        Ok(Outcome::Ready(()))
                    },
                    Ok(Outcome::Pending) => {
                        *self = MainFuture::State1(child);
                        Ok(Outcome::Pending)
                    },
                    Err(_) => {
                        *self = MainFuture::Terminated;
                        Err(TaskError::ChildTaskFailed)
                    },
                }
            },
            _ => {
                assert(old(cx).effects@ + Seq::<Effect>::empty() =~= old(cx).effects@);
                Err(TaskError::PolledAfterCompletion)
            },
        }
    }
}

/// A task backed by a completion cell that an outside producer completes.
/// The cell is named by its slot in the table that the caller holds. The
/// cell keeps answering once completed; the task is ready once, and a
/// poll after that is an error that leaves the cell alone.
#[derive(Clone, Copy, Debug, PartialEq, Eq, Structural)]
pub struct TimerFuture {
    pub cell: usize,
    pub done: bool,
}

impl TimerFuture {
    /// A timer task that waits on the completion cell in slot `cell`.
    /// Starting the producer that completes the cell is the caller's part.
    pub fn new(cell: usize) -> (r: TimerFuture)
        ensures
            r.cell == cell,
            !r.done,
    {
        TimerFuture { cell, done: false }
    }

    pub open spec fn poll_result(self, cells: Seq<SharedCompletion>) -> PollResult<()> {
        if self.done {
            Err(TaskError::PolledAfterCompletion)
        } else if cells[self.cell as int].completed {
            Ok(Outcome::Ready(()))
        } else {
            Ok(Outcome::Pending)
        }
    }

    pub open spec fn poll_next(self, cells: Seq<SharedCompletion>) -> TimerFuture {
        if !self.done && cells[self.cell as int].completed {
            TimerFuture { cell: self.cell, done: true }
        } else {
            self
        }
    }

    pub open spec fn poll_cells(self, w: WakeSignal, cells: Seq<SharedCompletion>) -> Seq<
        SharedCompletion,
    > {
        if self.done {
            cells
        } else {
            cells.update(self.cell as int, cells[self.cell as int].after_poll(w))
        }
    }

    pub open spec fn poll_effects(self, cells: Seq<SharedCompletion>) -> Seq<Effect> {
        if self.done {
            Seq::empty()
        } else if cells[self.cell as int].completed {
            seq![Effect::TimerPolled]
        } else {
            seq![Effect::TimerPolled, Effect::TimerPending]
        }
    }

    /// Ready once the cell is completed; otherwise leaves the context's
    /// signal in the cell. After it has been ready, a poll is an error.
    pub fn poll(&mut self, cx: &mut Context, cells: &mut Vec<SharedCompletion>) -> (r: PollResult<
        (),
    >)
        requires
            old(self).cell < old(cells)@.len(),
        ensures
            r == old(self).poll_result(old(cells)@),
            *final(self) == old(self).poll_next(old(cells)@),
            final(cells)@ == old(self).poll_cells(old(cx).waker, old(cells)@),
            final(cx).effects@ == old(cx).effects@ + old(self).poll_effects(old(cells)@),
            final(cx).wake_requested == old(cx).wake_requested,
            final(cx).waker == old(cx).waker,
            final(cx).now == old(cx).now,
    {
        if self.done {
            assert(old(cx).effects@ + Seq::<Effect>::empty() =~= old(cx).effects@);
            return Err(TaskError::PolledAfterCompletion);
        }
        cx.emit(Effect::TimerPolled);
        let mut c = cells[self.cell];
        let r = c.poll_with(cx);
        cells[self.cell] = c;
        if r.is_pending() {
            cx.emit(Effect::TimerPending);
        } else {
            self.done = true;
        }
        assert(final(cx).effects@ =~= old(cx).effects@ + old(self).poll_effects(old(cells)@));
        match r {
            Outcome::Ready(()) => Ok(Outcome::Ready(())),
            Outcome::Pending => Ok(Outcome::Pending),
        }
    }
}

/// Once a poll of a sequential task has returned `Ready`, every later
/// poll, whatever the time, reports `PolledAfterCompletion`, performs no
/// effect, asks for no wake and leaves the task as it is.
pub proof fn lemma_sequence_single_terminal(m: MainFuture, now: u64, later: u64)
    requires
        m.poll_result(now) matches Ok(Outcome::Ready(_)),
    ensures
        m.poll_next(now).poll_result(later) == Err::<Outcome<()>, TaskError>(
            TaskError::PolledAfterCompletion,
        ),
        m.poll_next(now).poll_effects(later) == Seq::<Effect>::empty(),
        m.poll_next(now).poll_next(later) == m.poll_next(now),
        !m.poll_next(now).poll_wakes(later),
{
}

/// Once a greeting task has returned `Ready`, a later poll reports
/// `PolledAfterCompletion` and greets no one again.
pub proof fn lemma_hello_single_terminal(h: Hello)
    requires
        h.poll_result() matches Ok(Outcome::Ready(_)),
    ensures
        Hello::Done.poll_result() == Err::<Outcome<()>, TaskError>(TaskError::PolledAfterCompletion),
        Hello::Done.poll_effects() == Seq::<Effect>::empty(),
{
}

} // verus!
