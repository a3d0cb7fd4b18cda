//! The bulk-transfer completion bridge. One `BulkTransferNode` exists per
//! in-flight transfer; its state moves from `Initialized` to `Polled` when
//! the native submission succeeds, and from `Polled` to exactly one terminal
//! state (`Succeeded` or `Failed`) when the completion callback runs.
//!
//! The native driver calls themselves (descriptor allocation, submission,
//! the callback's reclamation of the node, and the lock that makes `poll`
//! and `on_completion` atomic with respect to each other) live in the
//! surrounding application. Under that lock the application asks
//! `submission_request` whether a native submission is needed, performs it,
//! and hands the outcome to `poll`; the completion callback hands the
//! reported status to `on_completion` and wakes the returned waiter while
//! still holding the lock. Exclusive access in these functions (`&mut self`)
//! models holding that lock. The waiter type is generic: nothing here calls
//! it, it is only stored and handed back.

use vstd::prelude::*;

use crate::device_handle::DeviceHandle;
use crate::endpoint::EndpointAddress;
use crate::endpoint::TransferDirection;
use crate::endpoint::spec_direction;
use crate::error::Error;
use crate::error::ErrorInner;
use crate::error::LIBUSB_TRANSFER_COMPLETED;

verus! {

#[derive(Debug)]
pub enum BulkTransferState<W> {
    Initialized { buffer_len: i32, endpoint: EndpointAddress },
    Polled(W),
    Succeeded(usize),
    Failed(i32),
}

#[derive(Debug)]
pub struct BulkTransferNode<W> {
    pub state: BulkTransferState<W>,
}

/// An inbound transfer: the device fills a caller-provided buffer.
#[derive(Debug)]
pub struct BulkTransferIn<W> {
    pub node: BulkTransferNode<W>,
}

/// An outbound transfer: the device drains a caller-provided buffer.
#[derive(Debug)]
pub struct BulkTransferOut<W> {
    pub node: BulkTransferNode<W>,
}

/// What a poll reports: still waiting for the completion callback, or the
/// transfer's final outcome.
#[derive(Debug, Clone, Copy, PartialEq, Eq)]
pub enum TransferPoll {
    Pending,
    Ready(Result<usize, Error>),
}

/// A terminal state is never left again.
pub open spec fn is_terminal<W>(s: BulkTransferState<W>) -> bool {
    s is Succeeded || s is Failed
}

/// The final outcome a completed transfer yields: the transferred length on
/// a "completed" status, a `TransferStatus` error on any other status.
pub open spec fn result_of(status: i32, actual_length: i32) -> Result<usize, Error> {
    if status == LIBUSB_TRANSFER_COMPLETED {
        Ok(actual_length as usize)
    } else {
        Err(Error(ErrorInner::TransferStatus(status)))
    }
}

/// The terminal state the completion callback deposits.
pub open spec fn complete_next<W>(status: i32, actual_length: i32) -> BulkTransferState<W> {
    if status == LIBUSB_TRANSFER_COMPLETED {
        BulkTransferState::Succeeded(actual_length as usize)
    } else {
        BulkTransferState::Failed(status)
    }
}

/// A poll must attempt a native submission exactly when the transfer is
/// still `Initialized`; `submit_code` carries that attempt's return code.
pub open spec fn poll_enabled<W>(s: BulkTransferState<W>, submit_code: Option<i32>) -> bool {
    (s is Initialized) <==> (submit_code is Some)
}

/// The state after a poll: a successful submission or a repeated poll
/// registers the current waiter; a failed submission and a terminal state
/// leave the state unchanged.
pub open spec fn poll_next<W>(
    s: BulkTransferState<W>,
    waker: W,
    submit_code: Option<i32>,
) -> BulkTransferState<W> {
    match s {
        BulkTransferState::Initialized { .. } => {
            if submit_code == Some(0i32) {
                BulkTransferState::Polled(waker)
            } else {
                s
            }
        },
        BulkTransferState::Polled(_) => BulkTransferState::Polled(waker),
        _ => s,
    }
}

/// What a poll reports in each state.
pub open spec fn poll_output<W>(s: BulkTransferState<W>, submit_code: Option<i32>) -> TransferPoll {
    match s {
        BulkTransferState::Initialized { .. } => match submit_code {
            Some(code) => {
                if code == 0 {
                    TransferPoll::Pending
                } else {
                    TransferPoll::Ready(Err(Error(ErrorInner::ReturnCode(code))))
                }
            },
            None => TransferPoll::Pending,
        },
        BulkTransferState::Polled(_) => TransferPoll::Pending,
        BulkTransferState::Succeeded(n) => TransferPoll::Ready(Ok(n)),
        BulkTransferState::Failed(status) => TransferPoll::Ready(
            Err(Error(ErrorInner::TransferStatus(status))),
        ),
    }
}

impl<W> BulkTransferNode<W> {
    /// A fresh node for a transfer of `buffer_len` bytes on `endpoint`.
    pub fn new(buffer_len: i32, endpoint: EndpointAddress) -> (r: Self)
        requires
            buffer_len >= 0,
        ensures
            r.state == (BulkTransferState::<W>::Initialized { buffer_len, endpoint }),
    {
        BulkTransferNode {
            state: BulkTransferState::Initialized { buffer_len, endpoint },
        }
    }

    /// Asks whether a poll must first attempt a native submission, and with
    /// which buffer length and endpoint. `Some` exactly in `Initialized`.
    pub fn submission_request(&self) -> (r: Option<(i32, EndpointAddress)>)
        ensures
            match self.state {
                BulkTransferState::Initialized { buffer_len, endpoint } => r == Some(
                    (buffer_len, endpoint),
                ),
                _ => r is None,
            },
    {
        match &self.state {
            BulkTransferState::Initialized { buffer_len, endpoint } => Some(
                (*buffer_len, *endpoint),
            ),
            _ => None,
        }
    }

    /// One poll step, taken under the node's lock. In `Initialized` the
    /// caller has just attempted the native submission and passes its return
    /// code: zero arms the node (`Polled`, pending), non-zero surfaces the
    /// error and leaves the node unsubmitted. In `Polled` the stored waiter
    /// is replaced by the current one. A terminal state reports the outcome.
    pub fn poll(&mut self, waker: W, submit_code: Option<i32>) -> (r: TransferPoll)
        requires
            poll_enabled(old(self).state, submit_code),
        ensures
            final(self).state == poll_next(old(self).state, waker, submit_code),
            r == poll_output(old(self).state, submit_code),
    {
        match &self.state {
            BulkTransferState::Initialized { .. } => match submit_code {
                Some(code) => {
                    if code == 0 {
                        self.state = BulkTransferState::Polled(waker);
                        TransferPoll::Pending
                    } else {
                        TransferPoll::Ready(Err(Error(ErrorInner::ReturnCode(code))))
                    }
                },
                None => vstd::pervasive::unreached(),
            },
            BulkTransferState::Polled(_) => {
                self.state = BulkTransferState::Polled(waker);
                TransferPoll::Pending
            },
            BulkTransferState::Succeeded(n) => {
                let n: usize = *n;
                TransferPoll::Ready(Ok(n))
            },
            BulkTransferState::Failed(status) => {
                let status: i32 = *status;
                TransferPoll::Ready(Err(Error(ErrorInner::TransferStatus(status))))
            },
        }
    }

    /// The completion callback's state swap, taken under the node's lock.
    /// The previous state must be `Polled`: completion before the first
    /// successful poll, or a second completion, is a protocol violation the
    /// caller must treat as fatal. Deposits the terminal state and hands the
    /// stored waiter back so the caller can wake it while still holding the
    /// lock, which is what rules out a missed wakeup.
    pub fn on_completion(&mut self, status: i32, actual_length: i32) -> (w: W)
        requires
            old(self).state is Polled,
            status == LIBUSB_TRANSFER_COMPLETED ==> actual_length >= 0,
        ensures
            final(self).state == complete_next::<W>(status, actual_length),
            old(self).state == BulkTransferState::Polled(w),
    {
        let mut previous: BulkTransferState<W> = if status == LIBUSB_TRANSFER_COMPLETED {
            BulkTransferState::Succeeded(actual_length as usize)
        } else {
            BulkTransferState::Failed(status)
        };
        core::mem::swap(&mut self.state, &mut previous);
        match previous {
            BulkTransferState::Polled(waker) => waker,
            _ => vstd::pervasive::unreached(),
        }
    }
}

/// One event in a transfer's life, as the lock serializes them: a poll
/// (carrying the native submission outcome exactly when the transfer was
/// still `Initialized`), or the completion callback's state swap.
pub enum TransferEvent<W> {
    Poll { waker: W, submit_code: Option<i32> },
    Complete { status: i32, actual_length: i32 },
}

/// Whether an event can occur in a state: a poll attempts a submission
/// exactly in `Initialized`, and the completion callback fires only on a
/// submitted, not yet completed transfer (`Polled`), reporting a
/// non-negative length on a "completed" status.
pub open spec fn event_enabled<W>(s: BulkTransferState<W>, ev: TransferEvent<W>) -> bool {
    match ev {
        TransferEvent::Poll { waker, submit_code } => poll_enabled(s, submit_code),
        TransferEvent::Complete { status, actual_length } => s is Polled && (status
            == LIBUSB_TRANSFER_COMPLETED ==> actual_length >= 0),
    }
}

/// The state an event leaves behind.
pub open spec fn step<W>(s: BulkTransferState<W>, ev: TransferEvent<W>) -> BulkTransferState<W> {
    match ev {
        TransferEvent::Poll { waker, submit_code } => poll_next(s, waker, submit_code),
        TransferEvent::Complete { status, actual_length } => complete_next(status, actual_length),
    }
}

/// The state a sequence of events leaves behind.
pub open spec fn run<W>(s: BulkTransferState<W>, evs: Seq<TransferEvent<W>>) -> BulkTransferState<
    W,
>
    decreases evs.len(),
{
    if evs.len() == 0 {
        s
    } else {
        run(step(s, evs[0]), evs.drop_first())
    }
}

/// Whether every event of the sequence is enabled in the state it meets.
pub open spec fn valid_trace<W>(s: BulkTransferState<W>, evs: Seq<TransferEvent<W>>) -> bool
    decreases evs.len(),
{
    evs.len() == 0 || (event_enabled(s, evs[0]) && valid_trace(step(s, evs[0]), evs.drop_first()))
}

/// How many completion callbacks a sequence of events holds.
pub open spec fn completion_count<W>(evs: Seq<TransferEvent<W>>) -> nat
    decreases evs.len(),
{
    if evs.len() == 0 {
        0
    } else {
        (if evs[0] is Complete {
            1nat
        } else {
            0nat
        }) + completion_count(evs.drop_first())
    }
}

/// Once a transfer is terminal its state never changes again: every later
/// poll reports the deposited outcome and leaves it in place, and no
/// further completion is enabled.
pub proof fn lemma_terminal_stable<W>(s: BulkTransferState<W>, evs: Seq<TransferEvent<W>>)
    requires
        valid_trace(s, evs),
        is_terminal(s),
    ensures
        run(s, evs) == s,
    decreases evs.len(),
{
    if evs.len() > 0 {
        assert(step(s, evs[0]) == s);
        lemma_terminal_stable(s, evs.drop_first());
    }
}

/// Exactly one terminal state is ever reached, and at most once: along any
/// valid sequence of events the completion callback runs at most once, and
/// never once the transfer is terminal. Together with
/// `lemma_terminal_stable` this pins the transfer's outcome to the single
/// completion that produced it.
pub proof fn lemma_at_most_one_completion<W>(s: BulkTransferState<W>, evs: Seq<TransferEvent<W>>)
    requires
        valid_trace(s, evs),
    ensures
        completion_count(evs) <= (if is_terminal(s) {
            0int
        } else {
            1int
        }),
    decreases evs.len(),
{
    if evs.len() > 0 {
        lemma_at_most_one_completion(step(s, evs[0]), evs.drop_first());
    }
}

/// A poll that runs anywhere after the completion callback observes the
/// deposited terminal outcome: the terminal state survives every further
/// valid event, and a poll of it reports `Ready` with exactly the
/// completion's result. This is the sequential shadow of the no-missed-
/// wakeup rule: the callback wakes the waiter while still holding the lock,
/// so the woken poll always re-acquires the lock after the state swap.
pub proof fn lemma_poll_after_completion<W>(
    status: i32,
    actual_length: i32,
    evs: Seq<TransferEvent<W>>,
)
    requires
        status == LIBUSB_TRANSFER_COMPLETED ==> actual_length >= 0,
        valid_trace(complete_next::<W>(status, actual_length), evs),
    ensures
        run(complete_next::<W>(status, actual_length), evs) == complete_next::<W>(
            status,
            actual_length,
        ),
        poll_output(run(complete_next::<W>(status, actual_length), evs), None)
            == TransferPoll::Ready(result_of(status, actual_length)),
{
    lemma_terminal_stable(complete_next::<W>(status, actual_length), evs);
}

impl DeviceHandle {
    /// Prepares an inbound bulk transfer that will fill a caller-owned
    /// buffer of `buffer_len` bytes. The endpoint must be an In endpoint:
    /// submitting against an Out endpoint is a contract violation ruled out
    /// here, before any native call can occur.
    pub fn bulk_transfer_in<W>(&self, buffer_len: usize, endpoint: EndpointAddress) -> (r:
        BulkTransferIn<W>)
        requires
            buffer_len <= i32::MAX,
            spec_direction(endpoint@) == TransferDirection::In,
        ensures
            r.node.state == (BulkTransferState::<W>::Initialized {
                buffer_len: buffer_len as i32,
                endpoint,
            }),
    {
        BulkTransferIn { node: BulkTransferNode::new(buffer_len as i32, endpoint) }
    }

    /// Prepares an outbound bulk transfer that will drain a caller-owned
    /// buffer of `buffer_len` bytes. The endpoint must be an Out endpoint.
    pub fn bulk_transfer_out<W>(&self, buffer_len: usize, endpoint: EndpointAddress) -> (r:
        BulkTransferOut<W>)
        requires
            buffer_len <= i32::MAX,
            spec_direction(endpoint@) == TransferDirection::Out,
        ensures
            r.node.state == (BulkTransferState::<W>::Initialized {
                buffer_len: buffer_len as i32,
                endpoint,
            }),
    {
        BulkTransferOut { node: BulkTransferNode::new(buffer_len as i32, endpoint) }
    }
}

} // verus!
