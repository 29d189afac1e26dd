use own_future::context::{Effect, WakeSignal};
use own_future::executor::{Drive, Executor, TaskHandle};
use own_future::outcome::{Outcome, TaskError};
use own_future::task::Task;
use own_future::tasks::{hello, Delay, Hello, MainFuture};

#[test]
fn spawn_polls_nothing() {
    let mut ex = Executor::new();
    ex.spawn(Task::Hello(hello("lazy")));
    ex.spawn(Task::Sequence(MainFuture::new()));
    assert!(ex.effects.is_empty());
    assert_eq!(ex.queue.len(), 2);
}

#[test]
fn ready_tasks_run_in_spawn_order() {
    let mut ex = Executor::new();
    let h1 = ex.spawn(Task::Hello(hello("one")));
    let h2 = ex.spawn(Task::Hello(hello("two")));
    assert_eq!(ex.step(0), Some(h1.id));
    assert_eq!(ex.step(0), Some(h2.id));
    assert_eq!(ex.step(0), None);
    assert_eq!(
        ex.effects,
        vec![Effect::Greeted("one".to_string()), Effect::Greeted("two".to_string())]
    );
    assert_eq!(ex.poll_handle(h1), Outcome::Ready(Ok(())));
    assert_eq!(ex.poll_handle(h2), Outcome::Ready(Ok(())));
}

#[test]
fn completion_wakes_the_parked_task() {
    let mut ex = Executor::new();
    let t = ex.new_timer();
    let h = ex.spawn(Task::Timer(t));
    assert_eq!(ex.step(0), Some(h.id));
    assert_eq!(ex.poll_handle(h), Outcome::Pending);
    assert_eq!(ex.cells[t.cell].pending_wake, Some(WakeSignal { task: h.id }));
    assert!(ex.queue.is_empty());
    assert_eq!(ex.step(0), None);

    assert!(ex.mark_complete(t.cell));
    assert_eq!(ex.queue.len(), 1);
    assert!(!ex.mark_complete(t.cell));
    assert_eq!(ex.queue.len(), 1);

    assert_eq!(ex.step(0), Some(h.id));
    assert_eq!(ex.poll_handle(h), Outcome::Ready(Ok(())));
}

#[test]
fn completion_before_spawned_poll() {
    let mut ex = Executor::new();
    let t = ex.new_timer();
    assert!(!ex.mark_complete(t.cell));
    let h = ex.spawn(Task::Timer(t));
    assert_eq!(ex.step(0), Some(h.id));
    assert_eq!(ex.poll_handle(h), Outcome::Ready(Ok(())));
    assert_eq!(ex.effects, vec![Effect::TimerPolled]);
}

#[test]
fn orphaned_signal_after_cancel_is_harmless() {
    let mut ex = Executor::new();
    let t = ex.new_timer();
    let h = ex.spawn(Task::Timer(t));
    let other = ex.spawn(Task::Hello(hello("other")));
    assert_eq!(ex.step(0), Some(h.id));
    ex.cancel(h);
    assert_eq!(ex.poll_handle(h), Outcome::Ready(Err(TaskError::TaskAborted)));

    assert!(ex.mark_complete(t.cell));
    assert_eq!(ex.queue.len(), 1);
    ex.wake(WakeSignal { task: h.id });
    assert_eq!(ex.queue.len(), 1);
    assert_eq!(ex.step(0), Some(other.id));
    assert_eq!(ex.poll_handle(other), Outcome::Ready(Ok(())));
    assert_eq!(ex.poll_handle(h), Outcome::Ready(Err(TaskError::TaskAborted)));
    assert_eq!(ex.step(0), None);
}

#[test]
fn failing_task_reports_and_executor_goes_on() {
    let mut ex = Executor::new();
    let bad = ex.spawn(Task::Hello(Hello::Done));
    let good = ex.spawn(Task::Hello(hello("x")));
    ex.step(0);
    assert_eq!(ex.poll_handle(bad), Outcome::Ready(Err(TaskError::PolledAfterCompletion)));
    ex.step(0);
    assert_eq!(ex.poll_handle(good), Outcome::Ready(Ok(())));
}

#[test]
fn self_waking_task_is_requeued_until_ready() {
    let mut ex = Executor::new();
    let h = ex.spawn(Task::Sequence(MainFuture::new()));
    assert_eq!(ex.step(0), Some(h.id));
    assert_eq!(ex.queue.len(), 1);
    assert_eq!(ex.step(9), Some(h.id));
    assert_eq!(ex.poll_handle(h), Outcome::Pending);
    assert_eq!(ex.step(10), Some(h.id));
    assert_eq!(ex.poll_handle(h), Outcome::Ready(Ok(())));
    assert!(ex.queue.is_empty());
    assert_eq!(ex.effects, vec![Effect::DelayElapsed]);
}

#[test]
fn unknown_handle_reads_as_aborted() {
    let ex = Executor::new();
    assert_eq!(ex.poll_handle(TaskHandle { id: 3 }), Outcome::Ready(Err(TaskError::TaskAborted)));
}

#[test]
fn delay_task_in_executor() {
    let mut ex = Executor::new();
    let h = ex.spawn(Task::Delay(Delay::new(5)));
    ex.step(1);
    assert_eq!(ex.queue.len(), 1);
    ex.step(5);
    assert_eq!(ex.poll_handle(h), Outcome::Ready(Ok(())));
}

#[test]
fn run_until_stops_when_handle_ends() {
    let mut ex = Executor::new();
    let first = ex.spawn(Task::Hello(hello("a")));
    let second = ex.spawn(Task::Hello(hello("b")));
    assert_eq!(ex.run_until(first, 0, 10), (Outcome::Ready(Ok(())), 1));
    assert_eq!(ex.queue.len(), 1);
    assert_eq!(ex.poll_handle(second), Outcome::Pending);
}

#[test]
fn run_until_stops_when_queue_is_empty_or_budget_spent() {
    let mut ex = Executor::new();
    let t = ex.new_timer();
    let h = ex.spawn(Task::Timer(t));
    assert_eq!(ex.run_until(h, 0, 10), (Outcome::Pending, 1));
    assert!(ex.queue.is_empty());

    let seq = ex.spawn(Task::Sequence(MainFuture::new()));
    assert_eq!(ex.run_until(seq, 0, 3), (Outcome::Pending, 3));
    assert_eq!(ex.run_until(seq, 10, 3), (Outcome::Ready(Ok(())), 1));
}

#[test]
fn next_drive_decisions() {
    let mut ex = Executor::new();
    assert_eq!(ex.next_drive(Outcome::Ready(Err(TaskError::TaskAborted)), 3), Drive::Finished(Err(TaskError::TaskAborted)));
    assert_eq!(ex.next_drive(Outcome::Pending, 1), Drive::AwaitCompletion);
    assert_eq!(ex.next_drive(Outcome::Pending, 0), Drive::Stalled);
    ex.spawn(Task::Hello(hello("q")));
    assert_eq!(ex.next_drive(Outcome::Pending, 0), Drive::RunAgain);
}

#[test]
fn polls_after_ready_fail_inside_the_executor_too() {
    let mut ex = Executor::new();
    let h = ex.spawn(Task::Delay(Delay::new(0)));
    assert_eq!(ex.step(0), Some(h.id));
    assert_eq!(ex.poll_handle(h), Outcome::Ready(Ok(())));
    ex.wake(WakeSignal { task: h.id });
    assert!(ex.queue.is_empty());
    assert_eq!(ex.effects, vec![Effect::DelayElapsed]);
}
