use vstd::prelude::*;
use std::collections::VecDeque;
use crate::completion::SharedCompletion;
use crate::context::{Context, Effect, WakeSignal};
use crate::outcome::{Outcome, TaskError};
use crate::task::Task;
use crate::tasks::TimerFuture;

verus! {

/// The handle of a spawned task: polling it through the executor yields
/// the task's end.
#[derive(Clone, Copy, Debug, PartialEq, Eq, Structural)]
pub struct TaskHandle {
    pub id: usize,
}

/// What the loop that drives an executor does after a run.
#[derive(Clone, Copy, Debug, PartialEq, Eq)]
pub enum Drive {
    /// The awaited task has ended, with this end.
    Finished(Result<(), TaskError>),
    /// Tasks are still queued: run again.
    RunAgain,
    /// Nothing is queued, but an outside completion is still to come: wait for it.
    AwaitCompletion,
    /// Nothing is queued and nothing is to come: the awaited task cannot end.
    Stalled,
}

/// A single-threaded executor. Tasks live in slots; a slot holds its task
/// until the task ends, and then the task's end in `results`. Slots that
/// are ready to be polled wait in `queue`, in the order in which they
/// became ready. Completion cells that outside producers complete live in
/// `cells`. Effects that polled tasks performed pile up in `effects`.
pub struct Executor {
    pub tasks: Vec<Option<Task>>,
    pub results: Vec<Option<Result<(), TaskError>>>,
    pub cells: Vec<SharedCompletion>,
    pub queue: VecDeque<usize>,
    pub effects: Vec<Effect>,
}

impl Executor {
    pub open spec fn wf(self) -> bool {
        &&& self.tasks@.len() == self.results@.len()
        &&& forall|i: int|
            0 <= i < self.tasks@.len() && #[trigger] self.tasks@[i] is Some ==> self.tasks@[i]->0.cells_ok(
                self.cells@.len(),
            )
        &&& forall|i: int|
            0 <= i < self.tasks@.len() ==> (#[trigger] self.tasks@[i] is Some ==> self.results@[i] is None)
    }

    /// Whether the slot `id` holds a task that has not ended.
    pub open spec fn is_live(self, id: int) -> bool {
        0 <= id < self.tasks@.len() && self.tasks@[id] is Some
    }

    pub fn new() -> (r: Executor)
        ensures
            r.wf(),
            r.tasks@.len() == 0,
            r.cells@.len() == 0,
            r.queue@.len() == 0,
            r.effects@.len() == 0,
    {
        Executor {
            tasks: Vec::new(),
            results: Vec::new(),
            cells: Vec::new(),
            queue: VecDeque::new(),
            effects: Vec::new(),
        }
    }

    /// Makes a fresh completion cell and a timer task that waits on it.
    pub fn new_timer(&mut self) -> (t: TimerFuture)
        requires
            old(self).wf(),
            old(self).cells@.len() < usize::MAX,
        ensures
            final(self).wf(),
            t.cell == old(self).cells@.len(),
            final(self).cells@ == old(self).cells@.push(SharedCompletion::initial()),
            final(self).tasks == old(self).tasks,
            final(self).results == old(self).results,
            final(self).queue@ == old(self).queue@,
            final(self).effects@ == old(self).effects@,
    {
        let cell = self.cells.len();
        self.cells.push(SharedCompletion::new());
        assert forall|i: int|
            0 <= i < self.tasks@.len() && #[trigger] self.tasks@[i] is Some implies self.tasks@[i]->0.cells_ok(
                self.cells@.len(),
            ) by {
            assert(old(self).tasks@[i]->0.cells_ok(old(self).cells@.len()));
        }
        TimerFuture::new(cell)
    }

    /// Adds a task as ready, behind the tasks that are ready already. The
    /// task is not polled here.
    pub fn spawn(&mut self, task: Task) -> (h: TaskHandle)
        requires
            old(self).wf(),
            task.cells_ok(old(self).cells@.len()),
            old(self).tasks@.len() < usize::MAX,
        ensures
            final(self).wf(),
            h.id == old(self).tasks@.len(),
            final(self).tasks@ == old(self).tasks@.push(Some(task)),
            final(self).results@ == old(self).results@.push(None),
            final(self).queue@ == old(self).queue@.push(h.id),
            final(self).cells == old(self).cells,
            final(self).effects@ == old(self).effects@,
    {
        let id = self.tasks.len();
        self.tasks.push(Some(task));
        self.results.push(None);
        self.queue.push_back(id);
        TaskHandle { id }
    }

    /// Invokes a wake signal: the task it names is queued again if it has
    /// not ended. A signal of a task that has ended or was cancelled does
    /// nothing.
    pub fn wake(&mut self, w: WakeSignal)
        requires
            old(self).wf(),
        ensures
            final(self).wf(),
            old(self).is_live(w.task as int) ==> final(self).queue@ == old(self).queue@.push(w.task),
            !old(self).is_live(w.task as int) ==> final(self).queue@ == old(self).queue@,
            final(self).tasks == old(self).tasks,
            final(self).results == old(self).results,
            final(self).cells == old(self).cells,
            final(self).effects == old(self).effects,
    {
        if w.task < self.tasks.len() && self.tasks[w.task].is_some() {
            self.queue.push_back(w.task);
        }
    }

    /// The producer's side of a completion cell: marks it complete and
    /// invokes the signal that it held, if any. Returns whether there was one.
    pub fn mark_complete(&mut self, cell: usize) -> (woke: bool)
        requires
            old(self).wf(),
            cell < old(self).cells@.len(),
        ensures
            final(self).wf(),
            woke == (old(self).cells@[cell as int].pending_wake is Some),
            final(self).cells@ == old(self).cells@.update(
                cell as int,
                old(self).cells@[cell as int].after_complete(),
            ),
            match old(self).cells@[cell as int].pending_wake {
                Some(w) => if old(self).is_live(w.task as int) {
                    final(self).queue@ == old(self).queue@.push(w.task)
                } else {
                    final(self).queue@ == old(self).queue@
                },
                None => final(self).queue@ == old(self).queue@,
            },
            final(self).tasks == old(self).tasks,
            final(self).results == old(self).results,
            final(self).effects == old(self).effects,
    {
        let mut c = self.cells[cell];
        let taken = c.mark_complete();
        self.cells.set(cell, c);
        assert forall|i: int|
            0 <= i < self.tasks@.len() && #[trigger] self.tasks@[i] is Some implies self.tasks@[i]->0.cells_ok(
                self.cells@.len(),
            ) by {
            assert(old(self).tasks@[i]->0.cells_ok(old(self).cells@.len()));
        }
        match taken {
            Some(w) => {
                self.wake(w);
                true
            },
            None => false,
        }
    }

    /// Cancels a task: a task that has not ended is dropped without being
    /// polled again, and its end is `TaskAborted`. A handle of a task that
    /// has ended, or of no task, changes nothing.
    pub fn cancel(&mut self, h: TaskHandle)
        requires
            old(self).wf(),
        ensures
            final(self).wf(),
            old(self).is_live(h.id as int) ==> {
                &&& final(self).tasks@ == old(self).tasks@.update(h.id as int, None)
                &&& final(self).results@ == old(self).results@.update(
                    h.id as int,
                    Some(Err(TaskError::TaskAborted)),
                )
            },
            !old(self).is_live(h.id as int) ==> {
                &&& final(self).tasks == old(self).tasks
                &&& final(self).results == old(self).results
            },
            final(self).queue@ == old(self).queue@,
            final(self).cells == old(self).cells,
            final(self).effects == old(self).effects,
    {
        if h.id < self.tasks.len() && self.tasks[h.id].is_some() {
            self.tasks.set(h.id, None);
            self.results.set(h.id, Some(Err(TaskError::TaskAborted)));
        }
    }

    /// Polls the handle's task end: `Ready` with the end once the task has
    /// ended (or was cancelled), `Pending` while it runs. A handle that
    /// names no slot reads as aborted.
    pub fn poll_handle(&self, h: TaskHandle) -> (r: Outcome<Result<(), TaskError>>)
        requires
            self.wf(),
        ensures
            r == self.handle_outcome(h),
    {
        if h.id < self.results.len() {
            match self.results[h.id] {
                Some(e) => Outcome::Ready(e),
                None => Outcome::Pending,
            }
        } else {
            Outcome::Ready(Err(TaskError::TaskAborted))
        }
    }

    /// Polls the task at the front of the queue, if that slot still holds
    /// a task, with a context whose signal names that slot. A task that
    /// ends leaves its slot with its end; a pending task stays, and is
    /// queued again at the back only if it asked for that during the poll.
    /// Returns the slot taken from the queue, or `None` if the queue was
    /// empty.
    /// What one `step` at `now` does: `post` is `pre` after it, and `r` is
    /// what the step returned.
    pub open spec fn stepped(pre: Executor, post: Executor, now: u64, r: Option<usize>) -> bool {
        &&& (pre.queue@.len() == 0 ==> {
            &&& r is None
            &&& post.queue@ == pre.queue@
            &&& post.tasks == pre.tasks
            &&& post.results == pre.results
            &&& post.cells == pre.cells
            &&& post.effects == pre.effects
        })
        &&& (pre.queue@.len() > 0 ==> r == Some(pre.queue@[0]))
        &&& (pre.queue@.len() > 0 && !pre.is_live(pre.queue@[0] as int) ==> {
            &&& post.queue@ == pre.queue@.drop_first()
            &&& post.tasks == pre.tasks
            &&& post.results == pre.results
            &&& post.cells == pre.cells
            &&& post.effects == pre.effects
        })
        &&& (pre.queue@.len() > 0 && pre.is_live(pre.queue@[0] as int) ==> {
            let id = pre.queue@[0];
            let t = pre.tasks@[id as int]->0;
            let res = t.poll_result(now, pre.cells@);
            &&& post.cells@ == t.poll_cells(WakeSignal { task: id }, pre.cells@)
            &&& post.effects@ == pre.effects@ + t.poll_effects(now, pre.cells@)
            &&& res matches Ok(Outcome::Pending) ==> {
                &&& post.tasks@ == pre.tasks@.update(id as int, Some(t.poll_next(now, pre.cells@)))
                &&& post.results@ == pre.results@
                &&& post.queue@ == if t.poll_wakes(now) {
                    pre.queue@.drop_first().push(id)
                } else {
                    pre.queue@.drop_first()
                }
            }
            &&& !(res matches Ok(Outcome::Pending)) ==> {
                &&& post.tasks@ == pre.tasks@.update(id as int, None)
                &&& post.results@ == pre.results@.update(
                    id as int,
                    Some(
                        match res {
                            Err(e) => Err(e),
                            _ => Ok(()),
                        },
                    ),
                )
                &&& post.queue@ == pre.queue@.drop_first()
            }
        })
    }

    /// Two states that hold the same tasks, ends, cells, queue and effects.
    pub open spec fn same_state(a: Executor, b: Executor) -> bool {
        &&& a.tasks == b.tasks
        &&& a.results == b.results
        &&& a.cells == b.cells
        &&& a.queue@ == b.queue@
        &&& a.effects == b.effects
    }

    pub fn step(&mut self, now: u64) -> (r: Option<usize>)
        requires
            old(self).wf(),
        ensures
            final(self).wf(),
            Executor::stepped(*old(self), *final(self), now, r),
    {
        let popped = self.queue.pop_front();
        match popped {
            None => None,
            Some(id) => {
                assert(self.queue@ =~= old(self).queue@.drop_first());
                if id < self.tasks.len() && self.tasks[id].is_some() {
                    let slot = self.tasks.remove(id);
                    self.tasks.insert(id, None);
                    assert(self.tasks@ =~= old(self).tasks@.update(id as int, None));
                    let mut task = slot.unwrap();
                    let mut cx = Context::new(WakeSignal { task: id }, now);
                    let r = task.poll(&mut cx, &mut self.cells);
                    assert(cx.effects@ =~= Seq::<Effect>::empty() + old(self).tasks@[id as int]->0.poll_effects(
                        now,
                        old(self).cells@,
                    ));
                    self.effects.append(&mut cx.effects);
                    match r {
                        Ok(Outcome::Pending) => {
                            self.tasks.set(id, Some(task));
                            assert(self.tasks@ =~= old(self).tasks@.update(
                                id as int,
                                Some(old(self).tasks@[id as int]->0.poll_next(now, old(self).cells@)),
                            ));
                            if cx.wake_requested {
                                self.queue.push_back(id);
                            }
                        },
                        Ok(Outcome::Ready(())) => {
                            self.results.set(id, Some(Ok(())));
                        },
                        Err(e) => {
                            self.results.set(id, Some(Err(e)));
                        },
                    }
                    assert forall|i: int|
                        0 <= i < self.tasks@.len() && #[trigger] self.tasks@[i] is Some implies self.tasks@[i]->0.cells_ok(
                            self.cells@.len(),
                        ) by {
                        if i != id {
                            assert(old(self).tasks@[i]->0.cells_ok(old(self).cells@.len()));
                        }
                    }
                }
                Some(id)
            },
        }
    }

    /// The end of the handle's task as recorded now, as `poll_handle` reads it.
    pub open spec fn handle_outcome(self, h: TaskHandle) -> Outcome<Result<(), TaskError>> {
        if h.id < self.tasks@.len() {
            match self.results@[h.id as int] {
                Some(e) => Outcome::Ready(e),
                None => Outcome::Pending,
            }
        } else {
            Outcome::Ready(Err(TaskError::TaskAborted))
        }
    }

    /// Polls queued tasks in order, at time `now`, until the handle's task
    /// has ended, the queue is empty, or `max_polls` polls were made.
    /// Returns what the handle then reads and the number of polls made;
    /// while the handle is `Pending` the caller waits for an outside
    /// completion and runs again. The final state is the old one after that
    /// many steps, each taken while the handle was pending and the queue
    /// was not empty.
    pub fn run_until(&mut self, h: TaskHandle, now: u64, max_polls: usize) -> (r: (
        Outcome<Result<(), TaskError>>,
        usize,
    ))
        requires
            old(self).wf(),
        ensures
            final(self).wf(),
            r.0 == final(self).handle_outcome(h),
            r.1 <= max_polls,
            r.1 < max_polls ==> (r.0 is Ready || final(self).queue@.len() == 0),
            exists|trace: Seq<Executor>|
                {
                    &&& trace.len() == r.1 + 1
                    &&& trace[0] == *old(self)
                    &&& Executor::same_state(trace[r.1 as int], *final(self))
                    &&& forall|i: int|
                        #![trigger trace[i]]
                        0 <= i < r.1 ==> {
                            &&& trace[i].queue@.len() > 0
                            &&& trace[i].handle_outcome(h) is Pending
                            &&& Executor::stepped(trace[i], trace[i + 1], now, Some(trace[i].queue@[0]))
                        }
                },
    {
        let mut polls: usize = 0;
        let ghost mut trace: Seq<Executor> = seq![*self];
        loop
            invariant_except_break
                trace[polls as int] == *self,
            invariant
                self.wf(),
                polls <= max_polls,
                trace.len() == polls + 1,
                trace[0] == *old(self),
                forall|i: int|
                    #![trigger trace[i]]
                    0 <= i < polls ==> {
                        &&& trace[i].queue@.len() > 0
                        &&& trace[i].handle_outcome(h) is Pending
                        &&& Executor::stepped(trace[i], trace[i + 1], now, Some(trace[i].queue@[0]))
                    },
            ensures
                self.wf(),
                polls <= max_polls,
                trace.len() == polls + 1,
                trace[0] == *old(self),
                Executor::same_state(trace[polls as int], *self),
                forall|i: int|
                    #![trigger trace[i]]
                    0 <= i < polls ==> {
                        &&& trace[i].queue@.len() > 0
                        &&& trace[i].handle_outcome(h) is Pending
                        &&& Executor::stepped(trace[i], trace[i + 1], now, Some(trace[i].queue@[0]))
                    },
                polls < max_polls ==> (self.handle_outcome(h) is Ready || self.queue@.len() == 0),
            decreases max_polls - polls,
        {
            if polls >= max_polls {
                break;
            }
            if self.poll_handle(h).is_ready() {
                break;
            }
            let ghost pre = *self;
            let stepped = self.step(now);
            if stepped.is_none() {
                break;
            }
            proof {
                trace = trace.push(*self);
            }
            polls = polls + 1;
        }
        (self.poll_handle(h), polls)
    }

    /// Decides what the driving loop does once a run has returned
    /// `outcome` for the awaited handle, while `outstanding` outside
    /// completions are still to come.
    pub fn next_drive(&self, outcome: Outcome<Result<(), TaskError>>, outstanding: usize) -> (d:
        Drive)
        ensures
            match outcome {
                Outcome::Ready(e) => d == Drive::Finished(e),
                Outcome::Pending => if self.queue@.len() > 0 {
                    d is RunAgain
                } else if outstanding > 0 {
                    d is AwaitCompletion
                } else {
                    d is Stalled
                },
            },
    {
        match outcome {
            Outcome::Ready(e) => Drive::Finished(e),
            Outcome::Pending => if self.queue.len() > 0 {
                Drive::RunAgain
            } else if outstanding > 0 {
                Drive::AwaitCompletion
            } else {
                Drive::Stalled
            },
        }
    }
}

/// Ready tasks are polled in the order in which they were queued: two
/// steps from a queue whose first two entries are `a` then `b` take `a`
/// and then `b`, whatever the first poll did.
pub proof fn lemma_fifo_order(
    pre: Executor,
    mid: Executor,
    post: Executor,
    now: u64,
    later: u64,
    r1: Option<usize>,
    r2: Option<usize>,
)
    requires
        pre.queue@.len() >= 2,
        Executor::stepped(pre, mid, now, r1),
        Executor::stepped(mid, post, later, r2),
    ensures
        r1 == Some(pre.queue@[0]),
        r2 == Some(pre.queue@[1]),
{
    if pre.is_live(pre.queue@[0] as int) {
        let id = pre.queue@[0];
        let t = pre.tasks@[id as int]->0;
        if t.poll_result(now, pre.cells@) matches Ok(Outcome::Pending) {
            if t.poll_wakes(now) {
                assert(mid.queue@[0] == pre.queue@.drop_first()[0]);
            }
        }
    }
}

/// A signal of a task that has ended or was cancelled is harmless: a step
/// that takes such a slot from the queue polls nothing and changes no task,
/// end, cell or effect.
pub proof fn lemma_orphaned_slot_step(pre: Executor, post: Executor, now: u64, r: Option<usize>)
    requires
        pre.queue@.len() > 0,
        !pre.is_live(pre.queue@[0] as int),
        Executor::stepped(pre, post, now, r),
    ensures
        post.tasks == pre.tasks,
        post.results == pre.results,
        post.cells == pre.cells,
        post.effects == pre.effects,
        post.queue@ == pre.queue@.drop_first(),
{
}

} // verus!
