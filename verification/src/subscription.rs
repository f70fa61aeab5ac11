//! One outstanding asynchronous notification query: the consumer-facing
//! receiver, the sink that feeds it, and the synchronous outcome of
//! asking the service to start the query.

use vstd::prelude::*;

use crate::channel::{channel_pair, close_receiver, receiver_is_closed, try_recv_envelope};
use crate::delivery::{EventEnvelope, RecvAttempt};
use crate::errors::WMIError;
use crate::sink::EventSink;
use crate::WBEM_E_UNPARSABLE_QUERY;

verus! {

/// The consumer half of one subscription. Dropping it closes the
/// channel (the channel closes when its last receiver goes away), upon
/// which the sink's forwarding attempts fail silently; the embedder
/// additionally issues the best-effort cancel request against the
/// service session, whose failure is logged and never propagated.
pub struct AsyncQueryReceiver {
    pub receiver: async_channel::Receiver<EventEnvelope>,
}

impl AsyncQueryReceiver {
    /// Attempts to take the next envelope without suspending. The
    /// consumer treats the channel as exhausted once it reports closed,
    /// which happens exactly once per subscription — via the completion
    /// callback or via cancellation.
    pub fn try_recv(&self) -> (r: RecvAttempt) {
        try_recv_envelope(&self.receiver)
    }

    /// Closes the consumer's side of the channel: the local half of
    /// cancelling the subscription. Envelopes already delivered can
    /// still be taken; the sink's later sends fail silently. Returns
    /// whether this call closed the channel, which happens exactly once.
    pub fn close(&self) -> (was_open: bool) {
        close_receiver(&self.receiver)
    }

    /// Whether the channel has been closed, by completion or by
    /// cancellation.
    pub fn is_closed(&self) -> (b: bool) {
        receiver_is_closed(&self.receiver)
    }
}

/// Creates one subscription's channel and both of its endpoint owners:
/// the sink to register with the service as the callback target, and
/// the receiver handed to the consumer. Exactly one subscription exists
/// per query call.
pub fn make_subscription() -> (r: (EventSink, AsyncQueryReceiver)) {
    let (tx, rx) = channel_pair();
    (EventSink::new(tx), AsyncQueryReceiver { receiver: rx })
}

/// Maps the service's synchronous response to starting a notification
/// query: a malformed query is rejected before any event flows, fatal
/// to that query alone; every other response lets the subscription
/// stand.
pub fn query_start_outcome(hresult: u32) -> (r: Result<(), WMIError>)
    ensures
        hresult == WBEM_E_UNPARSABLE_QUERY ==> r == Err::<(), WMIError>(
            WMIError::WbemUnparsableQuery,
        ),
        hresult != WBEM_E_UNPARSABLE_QUERY ==> r == Ok::<(), WMIError>(()),
{
    if hresult == WBEM_E_UNPARSABLE_QUERY {
        Err(WMIError::WbemUnparsableQuery)
    } else {
        Ok(())
    }
}

} // verus!
