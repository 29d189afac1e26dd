use own_future::completion::SharedCompletion;
use own_future::context::{Context, Effect, WakeSignal};
use own_future::join::join;
use own_future::outcome::{Outcome, TaskError};
use own_future::task::Task;
use own_future::tasks::{hello, Delay, Hello, MainFuture, TimerFuture};
use own_future::timed::TimedWrapper;

fn cx_at(now: u64) -> Context {
    Context::new(WakeSignal { task: 0 }, now)
}

#[test]
fn hello_greets_once_then_refuses() {
    let mut h = hello("world");
    assert!(matches!(&h, Hello::Init { name } if name == "world"));
    let mut cx = cx_at(0);
    assert_eq!(h.poll(&mut cx), Ok(Outcome::Ready(())));
    assert_eq!(cx.effects, vec![Effect::Greeted("world".to_string())]);
    assert_eq!(h.poll(&mut cx), Err(TaskError::PolledAfterCompletion));
    assert_eq!(cx.effects.len(), 1);
}

#[test]
fn sequence_sets_up_then_waits_then_terminates() {
    let mut m = MainFuture::new();
    assert_eq!(m, MainFuture::State0);
    let mut cx = cx_at(100);
    assert_eq!(m.poll(&mut cx), Ok(Outcome::Pending));
    assert_eq!(m, MainFuture::State1(Delay { when: 110, done: false }));
    assert!(cx.wake_requested);
    assert!(cx.effects.is_empty());

    let mut cx = cx_at(109);
    assert_eq!(m.poll(&mut cx), Ok(Outcome::Pending));
    let mut cx = cx_at(110);
    assert_eq!(m.poll(&mut cx), Ok(Outcome::Ready(())));
    assert_eq!(m, MainFuture::Terminated);
    assert_eq!(cx.effects, vec![Effect::DelayElapsed]);
    assert!(!cx.wake_requested);

    let mut cx = cx_at(500);
    assert_eq!(m.poll(&mut cx), Err(TaskError::PolledAfterCompletion));
    assert!(cx.effects.is_empty());
    assert_eq!(m, MainFuture::Terminated);
}

#[test]
fn sequence_deadline_saturates() {
    let mut m = MainFuture::new();
    let mut cx = cx_at(u64::MAX - 3);
    assert_eq!(m.poll(&mut cx), Ok(Outcome::Pending));
    assert_eq!(m, MainFuture::State1(Delay { when: u64::MAX, done: false }));
    let mut cx = cx_at(u64::MAX);
    assert_eq!(m.poll(&mut cx), Ok(Outcome::Ready(())));
}

#[test]
fn delay_asks_to_be_polled_again_until_due() {
    let mut d = Delay::new(5);
    let mut cx = cx_at(4);
    assert_eq!(d.poll(&mut cx), Ok(Outcome::Pending));
    assert!(cx.wake_requested);
    let mut cx = cx_at(5);
    assert_eq!(d.poll(&mut cx), Ok(Outcome::Ready(())));
    assert!(!cx.wake_requested);
    assert_eq!(cx.effects, vec![Effect::DelayElapsed]);
    let mut cx = cx_at(6);
    assert_eq!(d.poll(&mut cx), Err(TaskError::PolledAfterCompletion));
    assert!(cx.effects.is_empty());
    assert!(!cx.wake_requested);
}

#[test]
fn completion_before_first_poll_is_not_lost() {
    let mut c = SharedCompletion::new();
    assert_eq!(c.mark_complete(), None);
    let cx = cx_at(0);
    assert_eq!(c.poll_with(&cx), Outcome::Ready(()));
    assert_eq!(c.pending_wake, None);
}

#[test]
fn latest_poll_signal_wins_and_is_taken_once() {
    let mut c = SharedCompletion::new();
    let first = Context::new(WakeSignal { task: 1 }, 0);
    let second = Context::new(WakeSignal { task: 2 }, 0);
    assert_eq!(c.poll_with(&first), Outcome::Pending);
    assert_eq!(c.poll_with(&second), Outcome::Pending);
    assert_eq!(c.mark_complete(), Some(WakeSignal { task: 2 }));
    assert_eq!(c.mark_complete(), None);
    assert_eq!(c.poll_with(&first), Outcome::Ready(()));
    assert!(c.is_completed());
}

#[test]
fn timer_polls_its_cell() {
    let mut cells = vec![SharedCompletion::new(), SharedCompletion::new()];
    let mut t = TimerFuture::new(1);
    let mut cx = Context::new(WakeSignal { task: 7 }, 0);
    assert_eq!(t.poll(&mut cx, &mut cells), Ok(Outcome::Pending));
    assert_eq!(cells[1].pending_wake, Some(WakeSignal { task: 7 }));
    assert_eq!(cells[0].pending_wake, None);
    assert_eq!(cx.effects, vec![Effect::TimerPolled, Effect::TimerPending]);
    cells[1].mark_complete();
    let mut cx = cx_at(0);
    assert_eq!(t.poll(&mut cx, &mut cells), Ok(Outcome::Ready(())));
    assert_eq!(cx.effects, vec![Effect::TimerPolled]);
    let mut cx = Context::new(WakeSignal { task: 9 }, 0);
    assert_eq!(t.poll(&mut cx, &mut cells), Err(TaskError::PolledAfterCompletion));
    assert!(cx.effects.is_empty());
    assert_eq!(cells[1], SharedCompletion { completed: true, pending_wake: None });
    assert_eq!(cells[1].poll_with(&cx), Outcome::Ready(()));
}

#[test]
fn join_ready_exactly_when_both_children_are() {
    let mut cells: Vec<SharedCompletion> = Vec::new();
    let mut j = join(Task::Delay(Delay::new(0)), Task::Delay(Delay::new(20)));

    let mut cx = cx_at(0);
    assert_eq!(j.poll(&mut cx, &mut cells), Ok(Outcome::Pending));
    assert!(j.a_done && !j.b_done);
    assert_eq!(cx.effects, vec![Effect::DelayElapsed]);

    let mut cx = cx_at(10);
    assert_eq!(j.poll(&mut cx, &mut cells), Ok(Outcome::Pending));
    assert!(cx.effects.is_empty());

    let mut cx = cx_at(20);
    assert_eq!(j.poll(&mut cx, &mut cells), Ok(Outcome::Ready(())));
    assert_eq!(cx.effects, vec![Effect::DelayElapsed]);

    let mut cx = cx_at(30);
    assert_eq!(j.poll(&mut cx, &mut cells), Err(TaskError::PolledAfterCompletion));
    assert!(cx.effects.is_empty());
}

#[test]
fn join_fails_with_its_first_failing_child() {
    let mut cells: Vec<SharedCompletion> = Vec::new();
    let mut j = join(Task::Hello(Hello::Done), Task::Hello(hello("b")));
    let mut cx = cx_at(0);
    assert_eq!(j.poll(&mut cx, &mut cells), Err(TaskError::ChildTaskFailed));
    assert!(cx.effects.is_empty());
    assert!(j.finished);
}

#[test]
fn timed_wrapper_measures_from_first_poll() {
    let mut cells: Vec<SharedCompletion> = Vec::new();
    let mut w = TimedWrapper::new(Task::Delay(Delay::new(30)));
    assert_eq!(w.start, None);
    let mut cx = cx_at(10);
    assert_eq!(w.poll(&mut cx, &mut cells), Ok(Outcome::Pending));
    assert_eq!(w.start, Some(10));
    let mut cx = cx_at(30);
    assert_eq!(w.poll(&mut cx, &mut cells), Ok(Outcome::Ready(((), 20))));
    assert_eq!(cx.effects, vec![Effect::DelayElapsed]);
    assert!(w.is_done());
    let mut cx = cx_at(40);
    assert_eq!(w.poll(&mut cx, &mut cells), Err(TaskError::PolledAfterCompletion));
    assert!(cx.effects.is_empty());
    assert_eq!(w.future, Task::Delay(Delay { when: 30, done: true }));
}

#[test]
fn timed_wrapper_passes_on_inner_failure() {
    let mut cells: Vec<SharedCompletion> = Vec::new();
    let mut w = TimedWrapper::new(Task::Hello(Hello::Done));
    let mut cx = cx_at(3);
    assert_eq!(w.poll(&mut cx, &mut cells), Err(TaskError::PolledAfterCompletion));
    assert!(w.is_done());
}

#[test]
fn timed_wrapper_begin_and_finish() {
    let mut w = TimedWrapper::new("inner");
    assert_eq!(w.begin(100), 100);
    assert_eq!(w.begin(150), 100);
    assert_eq!(w.finish::<u8>(120, Outcome::Pending), Outcome::Pending);
    assert!(!w.is_done());
    assert_eq!(w.finish(175, Outcome::Ready(9u8)), Outcome::Ready((9u8, 75)));
    assert!(w.is_done());
    let mut late = TimedWrapper::new(());
    late.begin(60);
    assert_eq!(late.finish(50, Outcome::Ready(1u8)), Outcome::Ready((1u8, 0)));
}
