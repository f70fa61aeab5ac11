//! The delivery protocol of one subscription, as a sequential model: an
//! append-only queue of event envelopes with a close-once discipline.
//!
//! The sink's two callback operations are given exact transition
//! functions here — [`spec_deliver`] for a batch indication and
//! [`spec_complete`] for the completion signal — and the ordering and
//! completion laws of the protocol are proved over them. The same model
//! drives simulated subscriptions end to end in tests; at runtime the
//! sink forwards into an asynchronous multi-producer channel with the
//! same discipline (see the sink and subscription modules).

use vstd::prelude::*;

use crate::errors::WMIError;
use crate::wire::{view_object, IWbemClassObjectWrapper, ObjectV};
use crate::{WBEM_STATUS_COMPLETE, WBEM_S_NO_ERROR};

verus! {

/// The unit flowing through a subscription's channel: a successfully
/// wrapped managed object, or a decode/transport error tag.
pub type EventEnvelope = Result<IWbemClassObjectWrapper, WMIError>;

/// Ghost mirror of [`EventEnvelope`].
pub type EnvelopeV = Result<ObjectV, WMIError>;

/// The view of one envelope.
pub open spec fn envelope_view(e: EventEnvelope) -> EnvelopeV {
    match e {
        Ok(obj) => Ok(view_object(obj)),
        Err(err) => Err(err),
    }
}

/// The views of a delivered batch of objects.
pub open spec fn batch_view(objects: Seq<IWbemClassObjectWrapper>) -> Seq<ObjectV> {
    objects.map_values(|o: IWbemClassObjectWrapper| view_object(o))
}

/// A batch of objects wrapped as successful envelopes, in batch order.
pub open spec fn wrapped(batch: Seq<ObjectV>) -> Seq<EnvelopeV> {
    batch.map_values(|o: ObjectV| Ok::<ObjectV, WMIError>(o))
}

/// Ghost state of one subscription's channel: the envelopes not yet
/// consumed, in delivery order, and whether the channel is closed.
pub struct DeliveryQueueV {
    pub queue: Seq<EnvelopeV>,
    pub closed: bool,
}

/// A sequential event channel: the single point of mutation between the
/// delivering sink and the consumer. Once closed it accepts nothing
/// more, and it reports exhaustion exactly once per subscription.
#[derive(Debug)]
pub struct DeliveryQueue {
    queue: Vec<EventEnvelope>,
    closed: bool,
}

impl View for DeliveryQueue {
    type V = DeliveryQueueV;

    closed spec fn view(&self) -> DeliveryQueueV {
        DeliveryQueueV {
            queue: Seq::new(self.queue@.len(), |i: int| envelope_view(self.queue@[i])),
            closed: self.closed,
        }
    }
}

/// One attempt to receive from the channel.
#[derive(Debug)]
pub enum RecvAttempt {
    /// The next envelope, in delivery order.
    Delivered(EventEnvelope),
    /// Nothing queued yet, but the channel is still open.
    Pending,
    /// The channel is closed and drained: no envelope will ever follow.
    Closed,
}

impl DeliveryQueue {
    /// A fresh, open, empty channel.
    pub fn new() -> (r: Self)
        ensures
            r@.queue == Seq::<EnvelopeV>::empty(),
            !r@.closed,
    {
        let r = DeliveryQueue { queue: Vec::new(), closed: false };
        assert(r@.queue =~= Seq::<EnvelopeV>::empty());
        r
    }

    /// Whether the channel has been closed.
    pub fn is_closed(&self) -> (b: bool)
        ensures
            b == self@.closed,
    {
        self.closed
    }

    /// The number of envelopes queued and not yet consumed.
    pub fn len(&self) -> (n: usize)
        ensures
            n == self@.queue.len(),
    {
        self.queue.len()
    }

    /// Appends one envelope if the channel is still open; reports
    /// whether the envelope was accepted. A closed channel accepts
    /// nothing and is left unchanged.
    pub fn send(&mut self, e: EventEnvelope) -> (accepted: bool)
        ensures
            accepted == !old(self)@.closed,
            final(self)@.closed == old(self)@.closed,
            old(self)@.closed ==> final(self)@.queue == old(self)@.queue,
            !old(self)@.closed ==> final(self)@.queue == old(self)@.queue.push(envelope_view(e)),
    {
        if self.closed {
            false
        } else {
            let ghost before = self@.queue;
            self.queue.push(e);
            assert(self@.queue =~= before.push(envelope_view(e)));
            true
        }
    }

    /// Closes the channel; envelopes already queued can still be
    /// consumed. Reports whether this call closed it, which happens
    /// exactly once per channel.
    pub fn close(&mut self) -> (was_open: bool)
        ensures
            final(self)@.closed,
            final(self)@.queue == old(self)@.queue,
            was_open == !old(self)@.closed,
    {
        let was_open = !self.closed;
        self.closed = true;
        assert(final(self)@.queue =~= old(self)@.queue);
        was_open
    }

    /// Takes the next envelope in delivery order; reports `Pending` on
    /// an open, empty channel and `Closed` once the channel is closed
    /// and drained.
    pub fn try_recv(&mut self) -> (r: RecvAttempt)
        ensures
            final(self)@.closed == old(self)@.closed,
            old(self)@.queue.len() > 0 ==> (r matches RecvAttempt::Delivered(e)
                && envelope_view(e) == old(self)@.queue[0]) && final(self)@.queue == old(
                self,
            )@.queue.drop_first(),
            old(self)@.queue.len() == 0 && !old(self)@.closed ==> r is Pending && final(self)@
                == old(self)@,
            old(self)@.queue.len() == 0 && old(self)@.closed ==> r is Closed && final(self)@
                == old(self)@,
    {
        if self.queue.len() > 0 {
            let ghost before = self@.queue;
            let e = self.queue.remove(0);
            assert(self@.queue =~= before.drop_first());
            RecvAttempt::Delivered(e)
        } else if !self.closed {
            RecvAttempt::Pending
        } else {
            RecvAttempt::Closed
        }
    }
}

/// What one batch indication does to the channel: nothing when the
/// batch is empty or the consumer is gone, else the first `count`
/// objects are appended as successful envelopes, in array order.
pub open spec fn spec_deliver(ch: DeliveryQueueV, count: int, batch: Seq<ObjectV>) -> DeliveryQueueV {
    if count <= 0 || ch.closed {
        ch
    } else {
        DeliveryQueueV { queue: ch.queue + wrapped(batch.subrange(0, count)), closed: ch.closed }
    }
}

/// What the completion signal does to the channel: the completion flag
/// closes it, any other flag value is a no-op.
pub open spec fn spec_complete(ch: DeliveryQueueV, flags: i32) -> DeliveryQueueV {
    if flags == WBEM_STATUS_COMPLETE {
        DeliveryQueueV { queue: ch.queue, closed: true }
    } else {
        ch
    }
}

/// Delivers one batch of managed objects into the channel, as the sink
/// does for one `Indicate` call: each of the first `count` objects is
/// retained, wrapped, and forwarded in array order; a closed channel
/// swallows the batch silently; and the status reported to the service
/// is success in every case, so a gone consumer is never treated as a
/// protocol error.
pub fn deliver_batch(
    chan: &mut DeliveryQueue,
    count: i32,
    objects: &Vec<IWbemClassObjectWrapper>,
) -> (status: i32)
    requires
        count <= objects@.len(),
    ensures
        status == WBEM_S_NO_ERROR,
        final(chan)@ == spec_deliver(old(chan)@, count as int, batch_view(objects@)),
{
    if count <= 0 {
        return WBEM_S_NO_ERROR;
    }
    if chan.is_closed() {
        return WBEM_S_NO_ERROR;
    }
    let cnt: usize = count as usize;
    let ghost start = chan@;
    for i in 0..cnt
        invariant
            cnt == count as int,
            cnt <= objects@.len(),
            !chan@.closed,
            chan@.closed == start.closed,
            chan@.queue == start.queue + wrapped(batch_view(objects@).subrange(0, i as int)),
    {
        let env: EventEnvelope = Ok(objects[i].retain());
        let ghost before = chan@.queue;
        chan.send(env);
        proof {
            let bv = batch_view(objects@);
            assert(envelope_view(env) == Ok::<ObjectV, WMIError>(bv[i as int]));
            assert(bv.subrange(0, i + 1) =~= bv.subrange(0, i as int).push(bv[i as int]));
            assert(wrapped(bv.subrange(0, i + 1)) =~= wrapped(bv.subrange(0, i as int)).push(
                Ok::<ObjectV, WMIError>(bv[i as int]),
            ));
            assert(chan@.queue =~= start.queue + wrapped(bv.subrange(0, i + 1)));
        }
    }
    WBEM_S_NO_ERROR
}

/// Signals completion of the subscription, as the sink does for the one
/// `SetStatus` call the service makes: the completion flag closes the
/// channel's sending side, any other flag value is a no-op, and the
/// status reported back is success.
pub fn signal_complete(chan: &mut DeliveryQueue, flags: i32) -> (status: i32)
    ensures
        status == WBEM_S_NO_ERROR,
        final(chan)@ == spec_complete(old(chan)@, flags),
{
    if flags == WBEM_STATUS_COMPLETE {
        chan.close();
    }
    WBEM_S_NO_ERROR
}

/// Law: a batch of `count` wire objects delivered in one indication
/// adds at most `count` envelopes, leaves everything already queued
/// untouched and in place, and the added envelopes carry the batch's
/// objects in the same relative order.
pub proof fn lemma_batch_observed_in_order(ch: DeliveryQueueV, count: int, batch: Seq<ObjectV>)
    requires
        0 <= count <= batch.len(),
    ensures
        ({
            let after = spec_deliver(ch, count, batch);
            &&& after.queue.len() - ch.queue.len() <= count
            &&& after.queue.subrange(0, ch.queue.len() as int) == ch.queue
            &&& forall|i: int|
                ch.queue.len() <= i < after.queue.len() ==> after.queue[i] == Ok::<
                    ObjectV,
                    WMIError,
                >(batch[i - ch.queue.len()])
        }),
{
    let after = spec_deliver(ch, count, batch);
    assert(after.queue.subrange(0, ch.queue.len() as int) =~= ch.queue);
}

/// Law: after the completion signal the channel reports closed, and no
/// further envelopes are ever observed — a later indication, however
/// large, changes nothing.
pub proof fn lemma_no_envelopes_after_completion(ch: DeliveryQueueV, count: int, batch: Seq<ObjectV>)
    ensures
        spec_complete(ch, WBEM_STATUS_COMPLETE).closed,
        spec_deliver(spec_complete(ch, WBEM_STATUS_COMPLETE), count, batch).queue == ch.queue,
{
}

/// Law: the channel closes exactly once — completion is idempotent, and
/// closing an already-closed channel reports that it was already closed
/// (see [`DeliveryQueue::close`]).
pub proof fn lemma_completion_idempotent(ch: DeliveryQueueV)
    ensures
        spec_complete(spec_complete(ch, WBEM_STATUS_COMPLETE), WBEM_STATUS_COMPLETE)
            == spec_complete(ch, WBEM_STATUS_COMPLETE),
{
}

} // verus!
