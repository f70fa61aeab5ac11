//! The structured record mapper, and the end-to-end path from one
//! simulated indication to a typed process record.

use wmi_query::bag::PropertyBag;
use wmi_query::delivery::{deliver_batch, DeliveryQueue, RecvAttempt};
use wmi_query::process::Win32_Process;
use wmi_query::wire::{
    IWbemClassObjectWrapper, Property, ValueType, WirePayload, WireValue, CIM_OBJECT, VT_BSTR,
    VT_EMPTY, VT_I4, VT_UNKNOWN,
};

fn text_prop(name: &str, text: &str) -> Property {
    Property {
        name: String::from(name),
        value: WireValue {
            vt: VT_BSTR,
            cim_type: 8,
            payload: WirePayload::Bstr(String::from(text)),
        },
    }
}

fn i4_prop(name: &str, x: i32) -> Property {
    Property {
        name: String::from(name),
        value: WireValue { vt: VT_I4, cim_type: 3, payload: WirePayload::I4(x) },
    }
}

#[test]
fn absent_and_empty_fields_default_to_zero_values() {
    let bag = PropertyBag::new();
    let rec = Win32_Process::from_properties(&bag);
    assert_eq!(rec.Name, String::new());
    assert_eq!(rec.ProcessId, 0);
    assert_eq!(rec.ParentProcessId, 0);
    assert_eq!(rec.CommandLine, String::new());

    let mut bag = PropertyBag::new();
    bag.insert(String::from("Name"), ValueType::EMPTY);
    bag.insert(String::from("ProcessId"), ValueType::EMPTY);
    let rec = Win32_Process::from_properties(&bag);
    assert_eq!(rec.Name, String::new());
    assert_eq!(rec.ProcessId, 0);
}

#[test]
fn populated_fields_are_unwrapped() {
    let mut bag = PropertyBag::new();
    bag.insert(String::from("Name"), ValueType::BSTR(String::from("notepad.exe")));
    bag.insert(String::from("ProcessId"), ValueType::I4(1234));
    bag.insert(String::from("Priority"), ValueType::I4(8));
    let rec = Win32_Process::from_properties(&bag);
    assert_eq!(rec.Name, String::from("notepad.exe"));
    assert_eq!(rec.ProcessId, 1234);
    assert_eq!(rec.Priority, 8);
}

#[test]
fn a_field_of_an_unexpected_kind_is_reported_not_coerced() {
    let mut bag = PropertyBag::new();
    bag.insert(String::from("ProcessId"), ValueType::BSTR(String::from("1234")));
    assert!(Win32_Process::try_from_properties(&bag).is_none());

    let mut bag = PropertyBag::new();
    bag.insert(String::from("Name"), ValueType::I4(5));
    assert!(Win32_Process::try_from_properties(&bag).is_none());
}

#[test]
fn a_well_typed_bag_passes_the_checked_entry_point() {
    let mut bag = PropertyBag::new();
    bag.insert(String::from("Name"), ValueType::BSTR(String::from("a")));
    bag.insert(String::from("ProcessId"), ValueType::I4(1));
    let rec = Win32_Process::try_from_properties(&bag).unwrap();
    assert_eq!(rec.Name, String::from("a"));
    assert_eq!(rec.ProcessId, 1);
}

#[test]
fn one_simulated_indication_maps_to_a_process_record() {
    // The actual changed instance, wrapped in an event envelope object
    // under the TargetInstance property, as the service delivers it.
    let instance = IWbemClassObjectWrapper::new(vec![
        text_prop("Name", "notepad.exe"),
        i4_prop("ProcessId", 1234),
        // No ParentProcessId key at all.
        Property {
            name: String::from("__Genus"),
            value: WireValue { vt: VT_EMPTY, cim_type: 0, payload: WirePayload::Nothing },
        },
    ]);
    let event = IWbemClassObjectWrapper::new(vec![Property {
        name: String::from("TargetInstance"),
        value: WireValue {
            vt: VT_UNKNOWN,
            cim_type: CIM_OBJECT,
            payload: WirePayload::Unknown(instance),
        },
    }]);

    let mut chan = DeliveryQueue::new();
    let status = deliver_batch(&mut chan, 1, &vec![event]);
    assert_eq!(status, wmi_query::WBEM_S_NO_ERROR);

    let envelope = match chan.try_recv() {
        RecvAttempt::Delivered(env) => env.unwrap(),
        other => panic!("expected one envelope, got {:?}", other),
    };
    let instance = envelope.get_embedded_object("TargetInstance").unwrap();
    let bag = instance.get_properties(true).unwrap().unwrap();
    let rec = Win32_Process::from_properties(&bag);
    assert_eq!(rec.Name, String::from("notepad.exe"));
    assert_eq!(rec.ProcessId, 1234);
    assert_eq!(rec.ParentProcessId, 0);
}
