use mesh_node::signal::{Signal, SignalSlot};
use std::sync::atomic::{AtomicUsize, Ordering};
use std::sync::Arc;
use std::task::{Context, Poll, Wake, Waker};

struct Counter {
    wakes: AtomicUsize,
}

impl Wake for Counter {
    fn wake(self: Arc<Self>) {
        self.wakes.fetch_add(1, Ordering::SeqCst);
    }
}

fn counter() -> (Arc<Counter>, Waker) {
    let counter = Arc::new(Counter { wakes: AtomicUsize::new(0) });
    let waker = Waker::from(counter.clone());
    (counter, waker)
}

#[test]
fn wait_on_idle_slot_is_pending() {
    let (_, waker) = counter();
    let mut cx = Context::from_waker(&waker);
    let mut signal = Signal::new();
    assert_eq!(signal.poll_wait(&mut cx), Poll::Pending);
    assert_eq!(signal.poll_wait(&mut cx), Poll::Pending);
}

#[test]
fn signal_before_wait_is_ready_once() {
    let (woken, waker) = counter();
    let mut cx = Context::from_waker(&waker);
    let mut signal = Signal::new();
    signal.signal();
    assert_eq!(signal.poll_wait(&mut cx), Poll::Ready(()));
    assert_eq!(signal.poll_wait(&mut cx), Poll::Pending);
    assert_eq!(woken.wakes.load(Ordering::SeqCst), 0);
}

#[test]
fn many_signals_coalesce_into_one_wait() {
    let (_, waker) = counter();
    let mut cx = Context::from_waker(&waker);
    let mut signal = Signal::new();
    signal.signal();
    signal.signal();
    signal.signal();
    signal.signal();
    signal.signal();
    assert_eq!(signal.poll_wait(&mut cx), Poll::Ready(()));
    assert_eq!(signal.poll_wait(&mut cx), Poll::Pending);
    assert_eq!(signal.poll_wait(&mut cx), Poll::Pending);
}

#[test]
fn signal_wakes_the_registered_waiter() {
    let (woken, waker) = counter();
    let mut cx = Context::from_waker(&waker);
    let mut signal = Signal::new();
    assert_eq!(signal.poll_wait(&mut cx), Poll::Pending);
    assert_eq!(woken.wakes.load(Ordering::SeqCst), 0);
    signal.signal();
    assert_eq!(woken.wakes.load(Ordering::SeqCst), 1);
    signal.signal();
    assert_eq!(woken.wakes.load(Ordering::SeqCst), 1);
    assert_eq!(signal.poll_wait(&mut cx), Poll::Ready(()));
}

#[test]
fn second_waiter_is_not_recorded() {
    let (first, first_waker) = counter();
    let (second, second_waker) = counter();
    let mut signal = Signal::new();
    {
        let mut cx = Context::from_waker(&first_waker);
        assert_eq!(signal.poll_wait(&mut cx), Poll::Pending);
    }
    {
        let mut cx = Context::from_waker(&second_waker);
        assert_eq!(signal.poll_wait(&mut cx), Poll::Pending);
    }
    signal.signal();
    assert_eq!(first.wakes.load(Ordering::SeqCst), 1);
    assert_eq!(second.wakes.load(Ordering::SeqCst), 0);
}

#[test]
fn raise_hands_out_the_waiter() {
    let (woken, waker) = counter();
    let mut cx = Context::from_waker(&waker);
    let mut signal = Signal::new();
    assert!(signal.raise().is_none());
    assert_eq!(signal.poll_wait(&mut cx), Poll::Ready(()));
    assert_eq!(signal.poll_wait(&mut cx), Poll::Pending);
    let waiter = signal.raise();
    assert!(waiter.is_some());
    assert_eq!(woken.wakes.load(Ordering::SeqCst), 0);
    waiter.unwrap().wake();
    assert_eq!(woken.wakes.load(Ordering::SeqCst), 1);
    assert!(signal.raise().is_none());
}

#[test]
fn reset_forgets_a_pending_signal() {
    let (_, waker) = counter();
    let mut cx = Context::from_waker(&waker);
    let mut signal = Signal::default();
    signal.signal();
    signal.reset();
    assert_eq!(signal.poll_wait(&mut cx), Poll::Pending);
}

#[test]
fn reset_forgets_a_waiter() {
    let (woken, waker) = counter();
    let mut cx = Context::from_waker(&waker);
    let mut signal = Signal::new();
    assert_eq!(signal.poll_wait(&mut cx), Poll::Pending);
    signal.reset();
    signal.signal();
    assert_eq!(woken.wakes.load(Ordering::SeqCst), 0);
}

#[test]
fn slot_is_acquired_by_one_user_at_a_time() {
    let mut slot = SignalSlot::default();
    assert!(slot.acquire());
    assert!(!slot.acquire());
    slot.release();
    assert!(slot.acquire());
    assert!(!slot.acquire());
}

#[test]
fn acquire_hands_over_an_idle_slot() {
    let (_, waker) = counter();
    let mut cx = Context::from_waker(&waker);
    let mut slot = SignalSlot::default();
    assert!(slot.acquire());
    slot.signal();
    slot.release();
    assert!(slot.acquire());
    assert_eq!(slot.poll_wait(&mut cx), Poll::Pending);
}

#[test]
fn failed_acquire_keeps_a_pending_signal() {
    let (_, waker) = counter();
    let mut cx = Context::from_waker(&waker);
    let mut slot = SignalSlot::default();
    assert!(slot.acquire());
    slot.signal();
    assert!(!slot.acquire());
    assert_eq!(slot.poll_wait(&mut cx), Poll::Ready(()));
    assert_eq!(slot.poll_wait(&mut cx), Poll::Pending);
}

#[test]
fn slot_signal_wakes_and_coalesces() {
    let (woken, waker) = counter();
    let mut cx = Context::from_waker(&waker);
    let mut slot = SignalSlot::default();
    assert!(slot.acquire());
    assert_eq!(slot.poll_wait(&mut cx), Poll::Pending);
    slot.signal();
    slot.signal();
    assert_eq!(woken.wakes.load(Ordering::SeqCst), 1);
    assert_eq!(slot.poll_wait(&mut cx), Poll::Ready(()));
    assert_eq!(slot.poll_wait(&mut cx), Poll::Pending);
}
