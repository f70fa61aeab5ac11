//! Delivery-order and completion behavior over the sequential channel
//! model.

use wmi_query::delivery::{deliver_batch, signal_complete, DeliveryQueue, RecvAttempt};
use wmi_query::wire::{IWbemClassObjectWrapper, Property, WirePayload, WireValue, VT_I4};
use wmi_query::{WBEM_STATUS_COMPLETE, WBEM_S_NO_ERROR};

fn object_with_pid(x: i32) -> IWbemClassObjectWrapper {
    IWbemClassObjectWrapper::new(vec![Property {
        name: String::from("ProcessId"),
        value: WireValue { vt: VT_I4, cim_type: 3, payload: WirePayload::I4(x) },
    }])
}

fn drain(chan: &mut DeliveryQueue) -> Vec<IWbemClassObjectWrapper> {
    let mut out = Vec::new();
    loop {
        match chan.try_recv() {
            RecvAttempt::Delivered(env) => out.push(env.unwrap()),
            RecvAttempt::Pending => break,
            RecvAttempt::Closed => break,
        }
    }
    out
}

#[test]
fn one_batch_is_observed_in_order() {
    let mut chan = DeliveryQueue::new();
    let batch = vec![object_with_pid(1), object_with_pid(2), object_with_pid(3)];
    let status = deliver_batch(&mut chan, 3, &batch);
    assert_eq!(status, WBEM_S_NO_ERROR);
    let got = drain(&mut chan);
    assert_eq!(got, batch);
}

#[test]
fn only_the_first_count_objects_of_a_batch_are_taken() {
    let mut chan = DeliveryQueue::new();
    let batch = vec![object_with_pid(1), object_with_pid(2), object_with_pid(3)];
    deliver_batch(&mut chan, 2, &batch);
    let got = drain(&mut chan);
    assert_eq!(got.len(), 2);
    assert_eq!(got[0], batch[0]);
    assert_eq!(got[1], batch[1]);
}

#[test]
fn a_non_positive_count_delivers_nothing_and_still_succeeds() {
    let mut chan = DeliveryQueue::new();
    let batch = vec![object_with_pid(1)];
    assert_eq!(deliver_batch(&mut chan, 0, &batch), WBEM_S_NO_ERROR);
    assert_eq!(deliver_batch(&mut chan, -4, &batch), WBEM_S_NO_ERROR);
    assert_eq!(chan.len(), 0);
}

#[test]
fn completion_closes_the_channel_and_later_batches_vanish() {
    let mut chan = DeliveryQueue::new();
    let batch = vec![object_with_pid(1)];
    deliver_batch(&mut chan, 1, &batch);
    let status = signal_complete(&mut chan, WBEM_STATUS_COMPLETE);
    assert_eq!(status, WBEM_S_NO_ERROR);
    assert!(chan.is_closed());

    // A late (incorrect) indication changes nothing and still succeeds.
    assert_eq!(deliver_batch(&mut chan, 1, &batch), WBEM_S_NO_ERROR);
    assert_eq!(chan.len(), 1);

    // The envelope delivered before completion is still consumed; after
    // that the channel reports exhaustion, forever.
    assert!(matches!(chan.try_recv(), RecvAttempt::Delivered(Ok(_))));
    assert!(matches!(chan.try_recv(), RecvAttempt::Closed));
    assert!(matches!(chan.try_recv(), RecvAttempt::Closed));
}

#[test]
fn a_flag_other_than_completion_is_a_no_op() {
    let mut chan = DeliveryQueue::new();
    assert_eq!(signal_complete(&mut chan, 1), WBEM_S_NO_ERROR);
    assert!(!chan.is_closed());
}

#[test]
fn the_channel_closes_exactly_once() {
    let mut chan = DeliveryQueue::new();
    assert!(chan.close());
    assert!(!chan.close());
    assert!(chan.is_closed());
}

#[test]
fn sends_on_a_closed_channel_are_refused() {
    let mut chan = DeliveryQueue::new();
    chan.close();
    assert!(!chan.send(Ok(object_with_pid(1))));
    assert_eq!(chan.len(), 0);
}

#[test]
fn an_open_empty_channel_reports_pending_not_closed() {
    let mut chan = DeliveryQueue::new();
    assert!(matches!(chan.try_recv(), RecvAttempt::Pending));
}
