//! The decisions of a UART driver that moves bytes by DMA between two byte
//! queues and the peripheral.
//!
//! The driver has three parts. The actor takes the read and write requests
//! of the application and lets one of each kind run at a time. The interrupt
//! side starts transfers and, when the peripheral signals completion, releases
//! or commits the queue memory that a transfer used. The controller relays
//! timeouts. None of them touches the peripheral or the queues: each takes
//! what those reported and says what to do next.

use crate::signal::{after_signal, after_wait, wait_ready, Signal, SlotState};
use core::task::{Context, Poll};
use vstd::prelude::*;

verus! {

/// No transfer of this direction is running.
pub const READY_STATE: bool = false;

/// A transfer of this direction is running.
pub const BUSY_STATE: bool = true;

/// How long a receive transfer may take, in milliseconds.
pub const READ_TIMEOUT: u32 = 100;

/// How many bytes one receive transfer asks for.
pub const READ_SIZE: usize = 128;

/// How long the driver waits when a queue has no bytes or no room, in
/// milliseconds.
pub const QUEUE_POLL_MILLIS: u32 = 10;

/// How long the driver backs off after a failure, in milliseconds.
pub const BACKOFF_MILLIS: u32 = 1000;

/// The progress of a transfer.
#[derive(Clone, Copy, Debug, PartialEq, Eq, Structural)]
pub enum State {
    Ready,
    InProgress,
    Timeout,
}

/// Why a request to the driver failed.
#[derive(Clone, Copy, Debug, PartialEq, Eq, Structural)]
pub enum Error {
    TxInProgress,
    TxBufferTooSmall,
    TxBufferTooLong,
    Transmit,
    RxInProgress,
    RxBufferTooSmall,
    RxBufferTooLong,
    Receive,
}

/// Why a byte queue granted no memory.
#[derive(Clone, Copy, Debug, PartialEq, Eq, Structural)]
pub enum QueueError {
    /// Nothing is queued.
    BufferEmpty,
    /// No room is left.
    BufferFull,
    /// The queue is in use or in no state to grant memory.
    NotReady,
}

/// What the driver asks to be told later.
#[derive(Clone, Copy, Debug, PartialEq, Eq, Structural)]
pub enum Notice {
    /// The interrupt side is to try to start a transmit transfer.
    TxStart,
    /// The interrupt side is to try to start a receive transfer.
    RxStart,
    /// The controller is to cancel the receive transfer that runs too long.
    RxTimeout,
    /// The controller is to end the read that the application waits for.
    ReadTimeout,
}

/// A notice and the delay after which it is due.
#[derive(Clone, Copy, Debug, PartialEq, Eq, Structural)]
pub struct Schedule {
    pub delay_millis: u32,
    pub notice: Notice,
}

/// What came of preparing a transfer: the queue granted `len` bytes and the
/// peripheral took them or not, or the queue granted nothing.
#[derive(Clone, Copy, Debug, PartialEq, Eq, Structural)]
pub enum Prepared {
    Granted { len: usize, accepted: bool },
    Refused(QueueError),
}

/// What the interrupt side does after preparing a transfer.
#[derive(Clone, Copy, Debug, PartialEq, Eq, Structural)]
pub struct Started {
    /// Whether the peripheral is told to start the transfer.
    pub start: bool,
    /// What is scheduled.
    pub schedule: Option<Schedule>,
}

/// What the interrupt side does when the peripheral signals completion.
#[derive(Clone, Copy, Debug, PartialEq, Eq, Structural)]
pub struct Completed {
    /// How many bytes of the transmit grant are released, if one was held.
    pub release: Option<usize>,
    /// How many bytes of the receive grant are committed, if any.
    pub commit: Option<usize>,
    /// Whether the next transmit transfer is to be prepared.
    pub restart_write: bool,
    /// Whether the next receive transfer is to be prepared.
    pub restart_read: bool,
}

/// What the two sides of the driver share.
pub struct Shared {
    tx_state: bool,
    rx_state: bool,
    rx_timeout: Signal,
}

impl Shared {
    /// Whether a write of the application is running.
    pub closed spec fn tx_busy(&self) -> bool {
        self.tx_state == BUSY_STATE
    }

    /// Whether a read of the application is running.
    pub closed spec fn rx_busy(&self) -> bool {
        self.rx_state == BUSY_STATE
    }

    /// What the timeout signal of the running read holds.
    pub closed spec fn rx_timeout(&self) -> SlotState {
        self.rx_timeout@
    }

    pub fn new() -> (shared: Self)
        ensures
            !shared.tx_busy(),
            !shared.rx_busy(),
            shared.rx_timeout() == SlotState::Idle,
    {
        Self { tx_state: READY_STATE, rx_timeout: Signal::new(), rx_state: READY_STATE }
    }
}

/// What a read or write of the application gets when it asks to start while
/// `busy` says whether one already runs.
pub open spec fn claimed(busy: bool, error: Error) -> Result<(), Error> {
    if busy {
        Err(error)
    } else {
        Ok(())
    }
}

/// What a transfer of the application returns once the queue is done with it:
/// any failure of the queue is reported as a receive error.
pub open spec fn finished<T>(result: Result<T, QueueError>) -> Result<T, Error> {
    match result {
        Ok(value) => Ok(value),
        Err(_) => Err(Error::Receive),
    }
}

/// The side of the driver that the application talks to.
pub struct UartActor {}

impl UartActor {
    pub fn new() -> (actor: Self) {
        Self {  }
    }

    /// Claims the receive direction for a read. A read that finds another
    /// one running fails and changes nothing.
    pub fn read(&self, shared: &mut Shared) -> (r: Result<(), Error>)
        ensures
            r == claimed(old(shared).rx_busy(), Error::RxInProgress),
            final(shared).rx_busy(),
            final(shared).tx_busy() == old(shared).tx_busy(),
            final(shared).rx_timeout() == old(shared).rx_timeout(),
    {
        let previous = shared.rx_state;
        shared.rx_state = BUSY_STATE;
        if previous == READY_STATE {
            Ok(())
        } else {
            Err(Error::RxInProgress)
        }
    }

    /// Claims the receive direction for a read that gives up after
    /// `timeout_millis`: clears the timeout signal and says what to schedule.
    /// A read that finds another one running fails and changes nothing.
    pub fn read_with_timeout(&self, shared: &mut Shared, timeout_millis: u32) -> (r: Result<
        Schedule,
        Error,
    >)
        ensures
            final(shared).rx_busy(),
            final(shared).tx_busy() == old(shared).tx_busy(),
            old(shared).rx_busy() ==> r == Err::<Schedule, Error>(Error::RxInProgress)
                && final(shared).rx_timeout() == old(shared).rx_timeout(),
            !old(shared).rx_busy() ==> r == Ok::<Schedule, Error>(
                Schedule { delay_millis: timeout_millis, notice: Notice::ReadTimeout },
            ) && final(shared).rx_timeout() == SlotState::Idle,
    {
        let previous = shared.rx_state;
        shared.rx_state = BUSY_STATE;
        if previous == READY_STATE {
            shared.rx_timeout.reset();
            Ok(Schedule { delay_millis: timeout_millis, notice: Notice::ReadTimeout })
        } else {
            Err(Error::RxInProgress)
        }
    }

    /// Claims the transmit direction for a write. A write that finds another
    /// one running fails and changes nothing.
    pub fn write(&self, shared: &mut Shared) -> (r: Result<(), Error>)
        ensures
            r == claimed(old(shared).tx_busy(), Error::TxInProgress),
            final(shared).tx_busy(),
            final(shared).rx_busy() == old(shared).rx_busy(),
            final(shared).rx_timeout() == old(shared).rx_timeout(),
    {
        let previous = shared.tx_state;
        shared.tx_state = BUSY_STATE;
        if previous == READY_STATE {
            Ok(())
        } else {
            Err(Error::TxInProgress)
        }
    }
}

/// Relays timeouts to the two sides of the driver.
pub struct UartController {}

impl UartController {
    pub fn new() -> (controller: Self) {
        Self {  }
    }

    /// The read of the application ran out of time: its timeout signal is
    /// raised.
    pub fn on_notify(&self, shared: &mut Shared)
        ensures
            final(shared).rx_timeout() == after_signal(old(shared).rx_timeout()),
            final(shared).rx_busy() == old(shared).rx_busy(),
            final(shared).tx_busy() == old(shared).tx_busy(),
    {
        shared.rx_timeout.signal();
    }
}

/// A write of the application that waits for the queue.
pub struct TxFuture {}

impl TxFuture {
    pub fn new() -> (future: Self) {
        Self {  }
    }

    /// Takes in what polling the queue gave. Once the queue is done, the
    /// transmit direction is free again and the result is the queue's, with
    /// any failure reported as a receive error.
    pub fn poll(&self, shared: &mut Shared, polled: Poll<Result<(), QueueError>>) -> (r: Poll<
        Result<(), Error>,
    >)
        ensures
            final(shared).rx_busy() == old(shared).rx_busy(),
            final(shared).rx_timeout() == old(shared).rx_timeout(),
            match polled {
                Poll::Ready(result) => r == Poll::Ready(finished(result))
                    && !final(shared).tx_busy(),
                Poll::Pending => r == Poll::<Result<(), Error>>::Pending
                    && final(shared).tx_busy() == old(shared).tx_busy(),
            },
    {
        match polled {
            Poll::Ready(result) => {
                shared.tx_state = READY_STATE;
                match result {
                    Ok(()) => Poll::Ready(Ok(())),
                    Err(_) => Poll::Ready(Err(Error::Receive)),
                }
            },
            Poll::Pending => Poll::Pending,
        }
    }
}

/// A read of the application that waits for the queue.
pub struct RxFuture {}

impl RxFuture {
    pub fn new() -> (future: Self) {
        Self {  }
    }

    /// Waits on the timeout signal without blocking and says whether the
    /// read of the queue is to be cancelled, which is the case once the
    /// signal was raised.
    pub fn poll_timeout(&self, shared: &mut Shared, cx: &mut Context<'_>) -> (cancel: bool)
        ensures
            cancel == wait_ready(old(shared).rx_timeout()),
            final(shared).rx_timeout() == after_wait(old(shared).rx_timeout()),
            final(shared).rx_busy() == old(shared).rx_busy(),
            final(shared).tx_busy() == old(shared).tx_busy(),
    {
        match shared.rx_timeout.poll_wait(cx) {
            Poll::Ready(_) => true,
            Poll::Pending => false,
        }
    }

    /// Takes in what polling the queue gave. Once the queue is done, the
    /// receive direction is free again and the result is the queue's, with
    /// any failure reported as a receive error.
    pub fn poll(&self, shared: &mut Shared, polled: Poll<Result<usize, QueueError>>) -> (r: Poll<
        Result<usize, Error>,
    >)
        ensures
            final(shared).tx_busy() == old(shared).tx_busy(),
            final(shared).rx_timeout() == old(shared).rx_timeout(),
            match polled {
                Poll::Ready(result) => r == Poll::Ready(finished(result))
                    && !final(shared).rx_busy(),
                Poll::Pending => r == Poll::<Result<usize, Error>>::Pending
                    && final(shared).rx_busy() == old(shared).rx_busy(),
            },
    {
        match polled {
            Poll::Ready(result) => {
                shared.rx_state = READY_STATE;
                match result {
                    Ok(len) => Poll::Ready(Ok(len)),
                    Err(_) => Poll::Ready(Err(Error::Receive)),
                }
            },
            Poll::Pending => Poll::Pending,
        }
    }
}

/// What follows from preparing a transmit transfer: a grant that the
/// peripheral took is started; an empty queue is looked at again shortly;
/// anything else is retried after the back-off.
pub open spec fn write_started(prepared: Prepared) -> Started {
    match prepared {
        Prepared::Granted { len, accepted } => if accepted {
            Started { start: true, schedule: None }
        } else {
            Started {
                start: false,
                schedule: Some(Schedule { delay_millis: BACKOFF_MILLIS, notice: Notice::TxStart }),
            }
        },
        Prepared::Refused(QueueError::BufferEmpty) => Started {
            start: false,
            schedule: Some(Schedule { delay_millis: QUEUE_POLL_MILLIS, notice: Notice::TxStart }),
        },
        Prepared::Refused(_) => Started {
            start: false,
            schedule: Some(Schedule { delay_millis: BACKOFF_MILLIS, notice: Notice::TxStart }),
        },
    }
}

/// What follows from preparing a receive transfer: a grant that the
/// peripheral took is started and its timeout scheduled; one that it did not
/// take is retried after the timeout; a full queue is looked at again
/// shortly; anything else is retried after the back-off.
pub open spec fn read_started(timeout_millis: u32, prepared: Prepared) -> Started {
    match prepared {
        Prepared::Granted { len, accepted } => if accepted {
            Started {
                start: true,
                schedule: Some(Schedule { delay_millis: timeout_millis, notice: Notice::RxTimeout }),
            }
        } else {
            Started {
                start: false,
                schedule: Some(Schedule { delay_millis: timeout_millis, notice: Notice::RxStart }),
            }
        },
        Prepared::Refused(QueueError::BufferFull) => Started {
            start: false,
            schedule: Some(Schedule { delay_millis: QUEUE_POLL_MILLIS, notice: Notice::RxStart }),
        },
        Prepared::Refused(_) => Started {
            start: false,
            schedule: Some(Schedule { delay_millis: BACKOFF_MILLIS, notice: Notice::RxStart }),
        },
    }
}

/// The grant that is held after preparing a transfer: the new one if the
/// peripheral took it, else the one held before.
pub open spec fn grant_after(held: Option<usize>, prepared: Prepared) -> Option<usize> {
    match prepared {
        Prepared::Granted { len, accepted } => if accepted {
            Some(len)
        } else {
            held
        },
        Prepared::Refused(_) => held,
    }
}

/// How many bytes of the transmit grant are released when a transmit
/// transfer is done: all of them if it went well, none if it failed.
pub open spec fn released(tx_done: bool, held: Option<usize>, write_ok: bool) -> Option<usize> {
    if tx_done {
        match held {
            Some(len) => Some(
                if write_ok {
                    len
                } else {
                    0
                },
            ),
            None => None,
        }
    } else {
        None
    }
}

/// How many bytes of the receive grant are committed when a receive transfer
/// is done: those that arrived, if a grant was held and any did.
pub open spec fn committed(rx_done: bool, held: Option<usize>, read_len: usize) -> Option<usize> {
    if rx_done && held is Some && read_len > 0 {
        Some(read_len)
    } else {
        None
    }
}

/// The side of the driver that runs on the interrupt of the peripheral.
pub struct UartInterrupt {
    tx_consumer_grant: Option<usize>,
    rx_producer_grant: Option<usize>,
}

impl UartInterrupt {
    /// The length of the transmit grant that a running transfer holds.
    pub closed spec fn tx_grant(&self) -> Option<usize> {
        self.tx_consumer_grant
    }

    /// The length of the receive grant that a running transfer holds.
    pub closed spec fn rx_grant(&self) -> Option<usize> {
        self.rx_producer_grant
    }

    pub fn new() -> (interrupt: Self)
        ensures
            interrupt.tx_grant().is_none(),
            interrupt.rx_grant().is_none(),
    {
        Self { tx_consumer_grant: None, rx_producer_grant: None }
    }

    /// Takes in what came of preparing a transmit transfer.
    pub fn start_write(&mut self, prepared: Prepared) -> (started: Started)
        ensures
            started == write_started(prepared),
            final(self).tx_grant() == grant_after(old(self).tx_grant(), prepared),
            final(self).rx_grant() == old(self).rx_grant(),
    {
        match prepared {
            Prepared::Granted { len, accepted } => {
                if accepted {
                    self.tx_consumer_grant = Some(len);
                    Started { start: true, schedule: None }
                } else {
                    Started {
                        start: false,
                        schedule: Some(
                            Schedule { delay_millis: BACKOFF_MILLIS, notice: Notice::TxStart },
                        ),
                    }
                }
            },
            Prepared::Refused(QueueError::BufferEmpty) => Started {
                start: false,
                schedule: Some(
                    Schedule { delay_millis: QUEUE_POLL_MILLIS, notice: Notice::TxStart },
                ),
            },
            Prepared::Refused(_) => Started {
                start: false,
                schedule: Some(Schedule { delay_millis: BACKOFF_MILLIS, notice: Notice::TxStart }),
            },
        }
    }

    /// Takes in what came of preparing a receive transfer that may take
    /// `timeout_millis`.
    pub fn start_read(&mut self, timeout_millis: u32, prepared: Prepared) -> (started: Started)
        ensures
            started == read_started(timeout_millis, prepared),
            final(self).rx_grant() == grant_after(old(self).rx_grant(), prepared),
            final(self).tx_grant() == old(self).tx_grant(),
    {
        match prepared {
            Prepared::Granted { len, accepted } => {
                if accepted {
                    self.rx_producer_grant = Some(len);
                    Started {
                        start: true,
                        schedule: Some(
                            Schedule { delay_millis: timeout_millis, notice: Notice::RxTimeout },
                        ),
                    }
                } else {
                    Started {
                        start: false,
                        schedule: Some(
                            Schedule { delay_millis: timeout_millis, notice: Notice::RxStart },
                        ),
                    }
                }
            },
            Prepared::Refused(QueueError::BufferFull) => Started {
                start: false,
                schedule: Some(
                    Schedule { delay_millis: QUEUE_POLL_MILLIS, notice: Notice::RxStart },
                ),
            },
            Prepared::Refused(_) => Started {
                start: false,
                schedule: Some(Schedule { delay_millis: BACKOFF_MILLIS, notice: Notice::RxStart }),
            },
        }
    }

    /// Takes in what the peripheral signalled: which directions are done,
    /// whether the transmit transfer went well and how many bytes the receive
    /// transfer brought. A direction that is done gives up its grant and is
    /// started again.
    pub fn on_interrupt(
        &mut self,
        tx_done: bool,
        rx_done: bool,
        write_ok: bool,
        read_len: usize,
    ) -> (done: Completed)
        ensures
            done.release == released(tx_done, old(self).tx_grant(), write_ok),
            done.commit == committed(rx_done, old(self).rx_grant(), read_len),
            done.restart_write == tx_done,
            done.restart_read == rx_done,
            final(self).tx_grant() == if tx_done {
                None
            } else {
                old(self).tx_grant()
            },
            final(self).rx_grant() == if rx_done {
                None
            } else {
                old(self).rx_grant()
            },
    {
        let mut release: Option<usize> = None;
        let mut commit: Option<usize> = None;
        if tx_done {
            if let Some(len) = self.tx_consumer_grant.take() {
                if write_ok {
                    release = Some(len);
                } else {
                    release = Some(0);
                }
            }
        }
        if rx_done {
            if let Some(_) = self.rx_producer_grant.take() {
                if read_len > 0 {
                    commit = Some(read_len);
                }
            }
        }
        Completed { release, commit, restart_write: tx_done, restart_read: rx_done }
    }
}

/// The driver: its three parts and what they share.
pub struct DmaUart {
    pub actor: UartActor,
    pub controller: UartController,
    pub interrupt: UartInterrupt,
    pub shared: Shared,
}

impl DmaUart {
    pub fn new() -> (uart: Self)
        ensures
            !uart.shared.tx_busy(),
            !uart.shared.rx_busy(),
            uart.shared.rx_timeout() == SlotState::Idle,
            uart.interrupt.tx_grant().is_none(),
            uart.interrupt.rx_grant().is_none(),
    {
        Self {
            actor: UartActor::new(),
            controller: UartController::new(),
            interrupt: UartInterrupt::new(),
            shared: Shared::new(),
        }
    }
}

} // verus!
