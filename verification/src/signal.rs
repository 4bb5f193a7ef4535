//! A single-slot, coalescing wake primitive.
//!
//! A slot is idle, holds one registered waiter, or holds one pending signal.
//! Signals do not count: any number of them before a wait collapse into one.

use core::task::{Context, Poll, Waker};
use vstd::prelude::*;

verus! {

/// `core::task::Waker`, carried through as an opaque handle.
#[verifier::external_type_specification]
#[verifier::external_body]
pub struct ExWaker(Waker);

/// `core::task::Context`, carried through as an opaque handle.
#[verifier::external_type_specification]
#[verifier::external_body]
pub struct ExContext<'a>(Context<'a>);

/// `core::task::Poll`, with its two variants `Ready` and `Pending`.
#[verifier::external_type_specification]
#[verifier::reject_recursive_types(T)]
pub struct ExPoll<T>(Poll<T>);

/// What a slot holds, without the identity of the waiter.
#[derive(Clone, Copy, Debug, PartialEq, Eq, Structural)]
pub enum SlotState {
    Idle,
    Waiting,
    Signaled,
}

/// The slot after a signal: always `Signaled`, whatever it held.
pub open spec fn after_signal(s: SlotState) -> SlotState {
    SlotState::Signaled
}

/// Whether a wait on a slot in state `s` completes at once.
pub open spec fn wait_ready(s: SlotState) -> bool {
    s == SlotState::Signaled
}

/// The slot after a wait: a pending signal is consumed, otherwise a waiter is
/// registered (or stays registered).
pub open spec fn after_wait(s: SlotState) -> SlotState {
    match s {
        SlotState::Idle => SlotState::Waiting,
        SlotState::Waiting => SlotState::Waiting,
        SlotState::Signaled => SlotState::Idle,
    }
}

/// The slot after `n` signals in a row.
pub open spec fn after_signals(s: SlotState, n: nat) -> SlotState
    decreases n,
{
    if n == 0 {
        s
    } else {
        after_signal(after_signals(s, (n - 1) as nat))
    }
}

enum State {
    Idle,
    Waiting(Waker),
    Signaled,
}

/// `Context::waker`: the handle of the task that is polling with `cx`. Nothing
/// is claimed of the handle.
#[verifier::external_body]
fn context_waker<'a>(cx: &'a Context<'_>) -> &'a Waker {
    cx.waker()
}

/// `Waker::clone`: a second handle to the same task. Nothing is claimed of it.
#[verifier::external_body]
fn clone_waker(waker: &Waker) -> Waker {
    waker.clone()
}

/// `Waker::wake`: schedules the task behind `waker`. The effect lies outside
/// the library, so nothing is claimed.
#[verifier::external_body]
fn wake(waker: Waker) {
    waker.wake()
}

pub struct Signal {
    state: State,
}

impl Signal {
    /// What the slot holds.
    pub closed spec fn view(&self) -> SlotState {
        match self.state {
            State::Idle => SlotState::Idle,
            State::Waiting(_) => SlotState::Waiting,
            State::Signaled => SlotState::Signaled,
        }
    }

    /// The registered waiter, if there is one.
    pub closed spec fn waiter(&self) -> Option<Waker> {
        match self.state {
            State::Waiting(w) => Some(w),
            _ => None,
        }
    }

    pub fn new() -> (s: Self)
        ensures
            s@ == SlotState::Idle,
            s.waiter().is_none(),
    {
        Self { state: State::Idle }
    }

    /// Marks the slot signaled and hands out the waiter that was registered,
    /// so that the caller can wake it.
    pub fn raise(&mut self) -> (woken: Option<Waker>)
        ensures
            final(self)@ == after_signal(old(self)@),
            woken == old(self).waiter(),
    {
        let mut previous = State::Signaled;
        core::mem::swap(&mut self.state, &mut previous);
        match previous {
            State::Waiting(waker) => Some(waker),
            _ => None,
        }
    }

    /// Signals the slot and wakes the registered waiter, if any. Signaling a
    /// slot that is idle or already signaled leaves it signaled.
    pub fn signal(&mut self)
        ensures
            final(self)@ == after_signal(old(self)@),
            final(self).waiter().is_none(),
    {
        match self.raise() {
            Some(waker) => wake(waker),
            None => {},
        }
    }

    /// Forgets a pending signal or a registered waiter.
    pub fn reset(&mut self)
        ensures
            final(self)@ == SlotState::Idle,
            final(self).waiter().is_none(),
    {
        self.state = State::Idle;
    }

    /// Waits on the slot without blocking. A pending signal is consumed and
    /// the wait is ready. Otherwise the wait is pending: on an idle slot the
    /// task polling with `cx` is registered; on a slot that already has a
    /// waiter, that first waiter stays and the new one is not recorded.
    pub fn poll_wait(&mut self, cx: &mut Context<'_>) -> (r: Poll<()>)
        ensures
            final(self)@ == after_wait(old(self)@),
            (r is Ready) == wait_ready(old(self)@),
            old(self)@ == SlotState::Waiting ==> final(self).waiter() == old(self).waiter(),
    {
        let mut previous = State::Idle;
        core::mem::swap(&mut self.state, &mut previous);
        match previous {
            State::Idle => {
                self.state = State::Waiting(clone_waker(context_waker(cx)));
                Poll::Pending
            },
            State::Waiting(waker) => {
                self.state = State::Waiting(waker);
                Poll::Pending
            },
            State::Signaled => Poll::Ready(()),
        }
    }
}

impl Default for Signal {
    fn default() -> (s: Self)
        ensures
            s@ == SlotState::Idle,
            s.waiter().is_none(),
    {
        Self::new()
    }
}

/// A wake slot that can be claimed by one user at a time.
pub struct SignalSlot {
    free: bool,
    signal: Signal,
}

impl SignalSlot {
    /// Whether nobody has claimed the slot.
    pub closed spec fn is_free(&self) -> bool {
        self.free
    }

    /// What the slot holds.
    pub closed spec fn view(&self) -> SlotState {
        self.signal@
    }

    /// The registered waiter, if there is one.
    pub closed spec fn waiter(&self) -> Option<Waker> {
        self.signal.waiter()
    }

    /// Claims the slot. Succeeds exactly if the slot was free, and then hands
    /// it over idle; a slot that is in use is left as it is.
    pub fn acquire(&mut self) -> (won: bool)
        ensures
            won == old(self).is_free(),
            !final(self).is_free(),
            won ==> final(self)@ == SlotState::Idle && final(self).waiter().is_none(),
            !won ==> final(self)@ == old(self)@ && final(self).waiter() == old(self).waiter(),
    {
        if self.free {
            self.free = false;
            self.signal.reset();
            true
        } else {
            false
        }
    }

    /// Waits on the slot without blocking; see [`Signal::poll_wait`].
    pub fn poll_wait(&mut self, cx: &mut Context<'_>) -> (r: Poll<()>)
        ensures
            final(self)@ == after_wait(old(self)@),
            (r is Ready) == wait_ready(old(self)@),
            old(self)@ == SlotState::Waiting ==> final(self).waiter() == old(self).waiter(),
            final(self).is_free() == old(self).is_free(),
    {
        self.signal.poll_wait(cx)
    }

    /// Signals the slot; see [`Signal::signal`].
    pub fn signal(&mut self)
        ensures
            final(self)@ == after_signal(old(self)@),
            final(self).waiter().is_none(),
            final(self).is_free() == old(self).is_free(),
    {
        self.signal.signal()
    }

    /// Gives the slot back. What it holds stays until the next claim.
    pub fn release(&mut self)
        ensures
            final(self).is_free(),
            final(self)@ == old(self)@,
            final(self).waiter() == old(self).waiter(),
    {
        self.free = true;
    }
}

impl Default for SignalSlot {
    fn default() -> (s: Self)
        ensures
            s.is_free(),
            s@ == SlotState::Idle,
            s.waiter().is_none(),
    {
        Self { free: true, signal: Signal::new() }
    }
}

/// Signals coalesce: after one or more signals in a row, from any state, the
/// next wait is ready and leaves the slot idle, and the wait after that is
/// pending. However many signals were sent, exactly one wait succeeds.
pub proof fn lemma_signals_coalesce(s: SlotState, n: nat)
    requires
        n >= 1,
    ensures
        after_signals(s, n) == SlotState::Signaled,
        wait_ready(after_signals(s, n)),
        after_wait(after_signals(s, n)) == SlotState::Idle,
        !wait_ready(after_wait(after_signals(s, n))),
{
}

/// A wait that succeeds always leaves the slot idle, and a wait that does not
/// succeed leaves a waiter registered.
pub proof fn lemma_wait_outcome(s: SlotState)
    ensures
        wait_ready(s) ==> after_wait(s) == SlotState::Idle,
        !wait_ready(s) ==> after_wait(s) == SlotState::Waiting,
{
}

/// Signaling is idempotent: a second signal changes nothing.
pub proof fn lemma_signal_idempotent(s: SlotState)
    ensures
        after_signal(after_signal(s)) == after_signal(s),
{
}

/// A wait that did not find a signal completes after the next signal: the
/// slot then returns to idle.
pub proof fn lemma_wait_then_signal(s: SlotState)
    requires
        !wait_ready(s),
    ensures
        after_wait(s) == SlotState::Waiting,
        wait_ready(after_signal(after_wait(s))),
        after_wait(after_signal(after_wait(s))) == SlotState::Idle,
{
}

} // verus!
