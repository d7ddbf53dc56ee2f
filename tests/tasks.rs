use async_rust::driver::Driver;
use async_rust::task::{DummyFuture, HelloWorld, Poll, Task, READY_VALUE};
use async_rust::waker::{noop_raw_waker, noop_waker, Context, RawWaker, Waker};

fn noop_context() -> Context {
    Context::from_waker(&noop_waker())
}

#[test]
fn single_step_task_is_ready_on_first_poll() {
    let cx = noop_context();
    let mut f = DummyFuture::with_steps(0);
    assert_eq!(f.poll(&cx), Poll::Ready(11));
    assert_eq!(f.count(), 0);
}

#[test]
fn two_step_task_is_pending_then_ready() {
    let cx = noop_context();
    let mut f = DummyFuture::new();
    assert_eq!(f.count(), 0);
    assert_eq!(f.threshold(), 1);
    assert_eq!(f.poll(&cx), Poll::Pending);
    assert_eq!(f.count(), 1);
    assert_eq!(f.poll(&cx), Poll::Ready(11));
    assert_eq!(f.count(), 1);
}

#[test]
fn polling_after_ready_repeats_value_without_change() {
    let cx = noop_context();
    let mut f = DummyFuture::new();
    assert_eq!(f.poll(&cx), Poll::Pending);
    assert_eq!(f.poll(&cx), Poll::Ready(READY_VALUE));
    assert_eq!(f.poll(&cx), Poll::Ready(READY_VALUE));
    assert_eq!(f.count(), 1);
}

#[test]
fn pending_until_threshold_never_skips() {
    let cx = noop_context();
    let mut f = DummyFuture::with_steps(5);
    for i in 0..5u8 {
        assert_eq!(f.count(), i);
        assert_eq!(f.poll(&cx), Poll::Pending);
        assert!(f.count() <= f.threshold());
    }
    assert_eq!(f.count(), 5);
    assert_eq!(f.poll(&cx), Poll::Ready(11));
}

#[test]
fn parent_needs_as_many_polls_as_child() {
    let cx = noop_context();
    let mut t = HelloWorld::from_child(DummyFuture::with_steps(3));
    for _ in 0..3 {
        assert!(!t.is_done());
        assert_eq!(t.poll(&cx), Poll::Pending);
    }
    assert!(!t.is_done());
    assert_eq!(t.poll(&cx), Poll::Ready(()));
    assert!(t.is_done());
}

#[test]
fn hello_world_completes_on_second_poll() {
    let cx = noop_context();
    let mut t = HelloWorld::new();
    let first = t.poll(&cx);
    assert!(first.is_pending());
    assert!(!t.is_done());
    let second = t.poll(&cx);
    assert!(second.is_ready());
    assert!(t.is_done());
}

#[test]
fn driver_trace_of_two_step_task() {
    let driver = Driver::new(10);
    let mut f = DummyFuture::new();
    let trace = driver.run(&mut f, &noop_waker());
    assert_eq!(trace, vec![Poll::Pending, Poll::Ready(11)]);
    let completed_on_first = trace.len() == 1 && trace[0].is_ready();
    let completed_on_second = trace.len() == 2 && trace[1].is_ready();
    assert!(!completed_on_first);
    assert!(completed_on_second);
}

#[test]
fn driver_completes_after_step_count_plus_one_polls() {
    let driver = Driver::new(100);
    let mut f = DummyFuture::with_steps(4);
    let trace = driver.run(&mut f, &noop_waker());
    assert_eq!(trace.len(), 5);
    assert!(trace[..4].iter().all(|p| *p == Poll::Pending));
    assert_eq!(trace[4], Poll::Ready(11));
}

#[test]
fn driver_stops_at_budget_and_can_resume() {
    let driver = Driver::new(2);
    assert_eq!(driver.budget(), 2);
    let mut f = DummyFuture::with_steps(5);
    let trace = driver.run(&mut f, &noop_waker());
    assert_eq!(trace, vec![Poll::Pending, Poll::Pending]);
    assert_eq!(f.count(), 2);
    let rest = Driver::new(10).run(&mut f, &noop_waker());
    assert_eq!(rest, vec![Poll::Pending, Poll::Pending, Poll::Pending, Poll::Ready(11)]);
}

#[test]
fn driver_with_zero_budget_polls_nothing() {
    let mut f = DummyFuture::new();
    let trace = Driver::new(0).run(&mut f, &noop_waker());
    assert!(trace.is_empty());
    assert_eq!(f.count(), 0);
}

#[test]
fn driver_runs_largest_step_count() {
    let mut f = DummyFuture::with_steps(255);
    let trace = Driver::new(1000).run(&mut f, &noop_waker());
    assert_eq!(trace.len(), 256);
    assert_eq!(trace[255], Poll::Ready(11));
    assert_eq!(trace[254], Poll::Pending);
}

#[test]
fn driver_runs_parent_task() {
    let mut t = HelloWorld::from_child(DummyFuture::with_steps(2));
    let trace = Driver::new(10).run(&mut t, &noop_waker());
    assert_eq!(trace, vec![Poll::Pending, Poll::Pending, Poll::Ready(())]);
    assert!(t.is_done());
}

#[test]
fn noop_waker_schedules_nothing() {
    assert_eq!(noop_raw_waker(), RawWaker { slot: None });
    let w = noop_waker();
    assert_eq!(w.wake_by_ref(), None);
    assert_eq!(w.wake_by_ref(), None);
    let copy = w;
    assert_eq!(copy, w);
}

#[test]
fn waker_from_raw_schedules_its_slot() {
    let w = Waker::from_raw(RawWaker { slot: Some(3) });
    assert_eq!(w.wake_by_ref(), Some(3));
    let cx = Context::from_waker(&w);
    assert_eq!(*cx.waker(), w);
    assert_eq!(cx.waker().wake_by_ref(), Some(3));
}
