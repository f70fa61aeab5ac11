//! Trusted boundary to the asynchronous multi-producer channel
//! (`async_channel`) that carries event envelopes from the notification
//! sink to the consumer at runtime.
//!
//! The channel mutates shared state behind `&self`, and a send or
//! receive races with the consumer closing its side, so these wrappers
//! promise only what holds of every outcome; the exact sequential
//! behavior of the protocol is stated and proved over the model in the
//! delivery module.

use vstd::prelude::*;

use crate::delivery::{EventEnvelope, RecvAttempt};

verus! {

#[verifier::external_type_specification]
#[verifier::external_body]
#[verifier::reject_recursive_types(T)]
pub struct ExSender<T>(async_channel::Sender<T>);

#[verifier::external_type_specification]
#[verifier::external_body]
#[verifier::reject_recursive_types(T)]
pub struct ExReceiver<T>(async_channel::Receiver<T>);

/// Relies on async_channel::unbounded: creates the connected sender and
/// receiver halves of a channel of unlimited capacity.
#[verifier::external_body]
pub(crate) fn channel_pair() -> (r: (
    async_channel::Sender<EventEnvelope>,
    async_channel::Receiver<EventEnvelope>,
)) {
    async_channel::unbounded()
}

/// Relies on async_channel::Sender::try_send: on an unbounded channel it
/// fails only when the channel is closed, and the error hands the
/// message back unchanged.
#[verifier::external_body]
pub(crate) fn try_send_envelope(
    s: &async_channel::Sender<EventEnvelope>,
    e: EventEnvelope,
) -> (r: Result<(), EventEnvelope>)
    ensures
        r matches Err(back) ==> back == e,
{
    match s.try_send(e) {
        Ok(()) => Ok(()),
        Err(err) => Err(err.into_inner()),
    }
}

/// Relies on async_channel::Sender::close: closes the channel (messages
/// already queued can still be received); returns true when this call
/// closed it and false when it was closed already.
#[verifier::external_body]
pub(crate) fn close_sender(s: &async_channel::Sender<EventEnvelope>) -> (r: bool) {
    s.close()
}

/// Relies on async_channel::Receiver::try_recv: takes the next queued
/// envelope; reports open-but-drained and closed-and-drained channels
/// apart.
#[verifier::external_body]
pub(crate) fn try_recv_envelope(r: &async_channel::Receiver<EventEnvelope>) -> (out: RecvAttempt) {
    match r.try_recv() {
        Ok(e) => RecvAttempt::Delivered(e),
        Err(async_channel::TryRecvError::Empty) => RecvAttempt::Pending,
        Err(async_channel::TryRecvError::Closed) => RecvAttempt::Closed,
    }
}

/// Relies on async_channel::Receiver::close: closes the channel
/// (messages already queued can still be received); returns true when
/// this call closed it and false when it was closed already.
#[verifier::external_body]
pub(crate) fn close_receiver(r: &async_channel::Receiver<EventEnvelope>) -> (out: bool) {
    r.close()
}

/// Relies on async_channel::Receiver::is_closed: whether the channel is
/// closed (envelopes may still be queued for consumption).
#[verifier::external_body]
pub(crate) fn receiver_is_closed(r: &async_channel::Receiver<EventEnvelope>) -> (out: bool) {
    r.is_closed()
}

} // verus!
