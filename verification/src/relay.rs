//! Relay channel for background-agent SSE streaming: an event sender joined
//! with the client-disconnect flag.
use std::sync::atomic::AtomicBool;
use std::sync::Arc;
use tokio::sync::mpsc::{Receiver, Sender};
use vstd::prelude::*;

use crate::event::SseEvent;
use crate::response::AbortSignal;

verus! {

#[verifier::external_type_specification]
#[verifier::external_body]
#[verifier::reject_recursive_types(T)]
pub struct ExSender<T>(tokio::sync::mpsc::Sender<T>);

#[verifier::external_type_specification]
#[verifier::external_body]
#[verifier::reject_recursive_types(T)]
pub struct ExReceiver<T>(tokio::sync::mpsc::Receiver<T>);

/// Error type for relay operations.
#[derive(Debug, Clone, Copy, PartialEq, Eq)]
pub enum RelayError {
    /// The client has disconnected and the channel is closed.
    Disconnected,
    /// The channel buffer is full and the send failed.
    ChannelFull,
}

/// The message that describes each relay error.
pub open spec fn spec_relay_error_message(e: RelayError) -> Seq<char> {
    match e {
        RelayError::Disconnected => "Client disconnected"@,
        RelayError::ChannelFull => "Channel full"@,
    }
}

impl RelayError {
    /// The human-readable message of this error.
    pub fn message(&self) -> (r: &'static str)
        ensures
            r@ == spec_relay_error_message(*self),
    {
        match self {
            RelayError::Disconnected => "Client disconnected",
            RelayError::ChannelFull => "Channel full",
        }
    }
}

/// What an attempt to queue an event on the channel came to.
#[derive(Debug, Clone, Copy, PartialEq, Eq)]
pub enum TrySendOutcome {
    /// The event was queued.
    Sent,
    /// The buffer was full; the event was not queued.
    Full,
    /// The receiving half was closed or dropped; the event was not queued.
    Closed,
}

/// The result a relay reports for each outcome of a send.
pub open spec fn spec_relay_result(o: TrySendOutcome) -> Result<(), RelayError> {
    match o {
        TrySendOutcome::Sent => Ok(()),
        TrySendOutcome::Full => Err(RelayError::ChannelFull),
        TrySendOutcome::Closed => Err(RelayError::Disconnected),
    }
}

/// Maps the outcome of a send to the relay's result: a full buffer is
/// [`RelayError::ChannelFull`], a closed channel [`RelayError::Disconnected`].
pub fn relay_result(outcome: TrySendOutcome) -> (r: Result<(), RelayError>)
    ensures
        r == spec_relay_result(outcome),
{
    match outcome {
        TrySendOutcome::Sent => Ok(()),
        TrySendOutcome::Full => Err(RelayError::ChannelFull),
        TrySendOutcome::Closed => Err(RelayError::Disconnected),
    }
}

/// Opens a bounded channel with `tokio::sync::mpsc::channel`, and records the
/// number of events it buffers.
///
/// Trusted: tokio panics where `buffer` is 0 or above its semaphore's maximum
/// of `usize::MAX >> 3` (that is, `usize::MAX / 8`) permits, so `requires` leaves
/// those out. The channel buffers up to `buffer` events (tokio builds its
/// semaphore with `buffer` permits and keeps `buffer` as its bound); the third
/// component records that number. Nothing else is stated of the pair, which is
/// a fresh channel.
#[verifier::external_body]
fn open_channel<E>(buffer: usize) -> (r: (Sender<E>, Receiver<E>, Ghost<nat>))
    requires
        0 < buffer <= usize::MAX / 8,
    ensures
        r.2@ == buffer,
{
    let (tx, rx) = tokio::sync::mpsc::channel(buffer);
    (tx, rx, Ghost(buffer as nat))
}

/// Queues `event` without waiting, with `tokio::sync::mpsc::Sender::try_send`,
/// and tells its result's variants apart.
///
/// Trusted: no `ensures`; which outcome comes back depends on the channel's
/// state at the time of the call.
#[verifier::external_body]
fn try_send_on<E>(tx: &Sender<E>, event: E) -> TrySendOutcome {
    match tx.try_send(event) {
        Ok(()) => TrySendOutcome::Sent,
        Err(tokio::sync::mpsc::error::TrySendError::Full(_)) => TrySendOutcome::Full,
        Err(tokio::sync::mpsc::error::TrySendError::Closed(_)) => TrySendOutcome::Closed,
    }
}

/// A new handle on the same channel, with `Clone::clone` of
/// `tokio::sync::mpsc::Sender`.
///
/// Trusted: no `ensures`; the handle is a new value that Verus cannot compare
/// with the old one.
#[verifier::external_body]
fn clone_sender<E>(tx: &Sender<E>) -> Sender<E> {
    tx.clone()
}

/// Whether the receiving half of the channel has been closed or dropped, with
/// `tokio::sync::mpsc::Sender::is_closed`.
///
/// Trusted: no `ensures`; the answer depends on what the receiver's owner has
/// done by the time of the call.
#[verifier::external_body]
fn sender_is_closed<E>(tx: &Sender<E>) -> bool {
    tx.is_closed()
}

/// Whether a disconnect is reported, given whether the response's abort flag
/// is raised and whether the receiving half of the channel is closed.
pub open spec fn spec_disconnected(flag_raised: bool, receiver_closed: bool) -> bool {
    flag_raised || receiver_closed
}

/// Reports a disconnect when the response's abort flag is raised or the
/// receiving half of the channel is closed, whichever it learns of.
pub fn disconnect_reported(flag_raised: bool, receiver_closed: bool) -> (r: bool)
    ensures
        r == spec_disconnected(flag_raised, receiver_closed),
{
    flag_raised || receiver_closed
}

/// Either sign of a gone client is reported as a disconnect, and a
/// disconnect is reported only on one of them: a raised flag or a closed
/// receiver each make the report true whatever the other says.
pub proof fn law_disconnect_on_either_sign(flag_raised: bool, receiver_closed: bool)
    ensures
        flag_raised ==> spec_disconnected(flag_raised, receiver_closed),
        receiver_closed ==> spec_disconnected(flag_raised, receiver_closed),
        spec_disconnected(flag_raised, receiver_closed) ==> flag_raised || receiver_closed,
{
}

/// Relay channel for SSE streaming with disconnect detection: a sender of
/// events and the abort signal of the response that receives them.
#[verifier::reject_recursive_types(E)]
pub struct SseRelay<E: SseEvent> {
    tx: Sender<E>,
    abort: AbortSignal,
    capacity: Ghost<Option<nat>>,
}

impl<E: SseEvent> SseRelay<E> {
    /// The sender this relay queues events on.
    pub closed spec fn spec_sender(&self) -> Sender<E> {
        self.tx
    }

    /// The abort signal this relay reports.
    pub closed spec fn spec_abort(&self) -> AbortSignal {
        self.abort
    }

    /// The number of events the relay's channel buffers, where the relay
    /// opened the channel itself.
    pub closed spec fn spec_capacity(&self) -> Option<nat> {
        self.capacity@
    }

    /// Creates a relay on a new channel that buffers up to `buffer` events,
    /// with a fresh abort signal; returns the relay and the receiving half.
    pub fn new(buffer: usize) -> (r: (Self, Receiver<E>))
        requires
            0 < buffer <= usize::MAX / 8,
        ensures
            r.0.spec_capacity() == Some(buffer as nat),
    {
        let (tx, rx, cap) = open_channel(buffer);
        let abort = AbortSignal { aborted: Arc::new(AtomicBool::new(false)) };
        (SseRelay { tx, abort, capacity: Ghost(Some(cap@)) }, rx)
    }

    /// Creates a relay from an existing sender and abort signal.
    pub fn from_parts(tx: Sender<E>, abort: AbortSignal) -> (r: Self)
        ensures
            r.spec_sender() == tx,
            r.spec_abort() == abort,
            r.spec_capacity() is None,
    {
        SseRelay { tx, abort, capacity: Ghost(None) }
    }

    /// Tries to queue an event without waiting: `Ok` when it was queued,
    /// [`RelayError::ChannelFull`] when the buffer is full,
    /// [`RelayError::Disconnected`] when the receiver is gone.
    pub fn try_send(&self, event: E) -> (r: Result<(), RelayError>)
        ensures
            exists|o: TrySendOutcome| r == spec_relay_result(o),
    {
        let outcome = try_send_on(&self.tx, event);
        relay_result(outcome)
    }

    /// Checks if the client has disconnected: the response stream holding the
    /// abort signal has been dropped, or the receiving half of the channel
    /// (the response's event source) has been closed or dropped.
    pub fn is_aborted(&self) -> bool {
        let flag_raised = self.abort.is_aborted();
        let receiver_closed = sender_is_closed(&self.tx);
        disconnect_reported(flag_raised, receiver_closed)
    }

    /// The abort signal of this relay.
    pub fn abort_signal(&self) -> (r: &AbortSignal)
        ensures
            *r == self.spec_abort(),
    {
        &self.abort
    }

    /// A clone of the sender, for use in other tasks.
    pub fn sender(&self) -> Sender<E> {
        clone_sender(&self.tx)
    }
}

} // verus!
