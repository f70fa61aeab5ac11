//! The notification sink: the two-operation callback contract the
//! instrumentation service invokes on its own threads, implemented over
//! the subscription's channel.
//!
//! The exact sequential effect of each operation is the transition
//! stated and proved in the delivery module ([`crate::delivery`]); here
//! the same decisions drive the runtime channel, whose send races with
//! the consumer, so the contracts state what holds of every outcome —
//! above all that the status reported to the service is success even
//! when the consumer is gone, which must never become a protocol error.

use vstd::prelude::*;

use crate::channel::{close_sender, try_send_envelope};
use crate::delivery::EventEnvelope;
use crate::wire::IWbemClassObjectWrapper;
use crate::{WBEM_STATUS_COMPLETE, WBEM_S_NO_ERROR};

verus! {

/// One subscription's sink: holds the sending half of the channel; the
/// service holds the callback reference.
pub struct EventSink {
    pub sender: async_channel::Sender<EventEnvelope>,
}

impl EventSink {
    /// Wraps the sending half of a subscription's channel as its sink.
    pub fn new(sender: async_channel::Sender<EventEnvelope>) -> (r: Self)
        ensures
            r.sender == sender,
    {
        EventSink { sender }
    }

    /// The batch-delivery callback: called once per batch of newly
    /// available objects, of which the first `count` are to be taken; a
    /// non-positive `count` means nothing to deliver.
    ///
    /// Each taken object is retained at capture time, wrapped as an
    /// envelope, and forwarded in array order. If forwarding fails (the
    /// consumer closed or dropped its side), this and all later objects
    /// of the batch are dropped silently. The status returned to the
    /// service is success in every case.
    ///
    /// Sequentially, the channel changes as the delivery model's
    /// transition [`crate::delivery::spec_deliver`] states.
    pub fn indicate(&self, count: i32, objects: &Vec<IWbemClassObjectWrapper>) -> (status: i32)
        requires
            count <= objects@.len(),
        ensures
            status == WBEM_S_NO_ERROR,
    {
        if count <= 0 {
            return WBEM_S_NO_ERROR;
        }
        let cnt: usize = count as usize;
        for i in 0..cnt
            invariant
                cnt <= objects@.len(),
        {
            let env: EventEnvelope = Ok(objects[i].retain());
            if try_send_envelope(&self.sender, env).is_err() {
                // The consumer is gone: swallow the rest of the batch,
                // but still report success to the service.
                return WBEM_S_NO_ERROR;
            }
        }
        WBEM_S_NO_ERROR
    }

    /// The completion callback: the service calls it exactly once per
    /// subscription, after all deliveries have ceased. The completion
    /// flag closes the channel's sending side so the consumer sees
    /// exhaustion; any other flag value is a no-op.
    ///
    /// Sequentially, the channel changes as the delivery model's
    /// transition [`crate::delivery::spec_complete`] states.
    pub fn set_status(&self, flags: i32) -> (status: i32)
        ensures
            status == WBEM_S_NO_ERROR,
    {
        if flags == WBEM_STATUS_COMPLETE {
            close_sender(&self.sender);
        }
        WBEM_S_NO_ERROR
    }
}

} // verus!
