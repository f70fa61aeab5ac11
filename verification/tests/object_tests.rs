//! Object accessor behavior over concrete modeled handles.

use wmi_query::errors::WMIError;
use wmi_query::wire::{
    IWbemClassObjectWrapper, Property, ValueType, WirePayload, WireValue, CIM_OBJECT, VT_BOOL,
    VT_BSTR, VT_EMPTY, VT_I4, VT_NULL, VT_UNKNOWN,
};

fn text_prop(name: &str, text: &str) -> Property {
    Property {
        name: String::from(name),
        value: WireValue {
            vt: VT_BSTR,
            cim_type: 8,
            payload: WirePayload::Bstr(String::from(text)),
        },
    }
}

fn i4_prop(name: &str, x: i32) -> Property {
    Property {
        name: String::from(name),
        value: WireValue { vt: VT_I4, cim_type: 3, payload: WirePayload::I4(x) },
    }
}

fn tagged_prop(name: &str, vt: u16) -> Property {
    Property {
        name: String::from(name),
        value: WireValue { vt, cim_type: 0, payload: WirePayload::Nothing },
    }
}

#[test]
fn names_come_back_in_report_order() {
    let obj = IWbemClassObjectWrapper::new(vec![
        text_prop("Name", "a"),
        i4_prop("ProcessId", 1),
        tagged_prop("Reserved", VT_EMPTY),
    ]);
    let names = obj.get_property_names().unwrap();
    assert_eq!(names, vec![
        String::from("Name"),
        String::from("ProcessId"),
        String::from("Reserved"),
    ]);
}

#[test]
fn empty_object_reports_no_names() {
    let obj = IWbemClassObjectWrapper::new(vec![]);
    assert_eq!(obj.get_property_names().unwrap(), Vec::<String>::new());
}

#[test]
fn get_property_resolves_text_and_integers() {
    let obj = IWbemClassObjectWrapper::new(vec![text_prop("Name", "a"), i4_prop("Pid", 7)]);
    let got = obj.get_property("Name").unwrap().unwrap();
    assert_eq!(got.0, String::from("Name"));
    assert_eq!(got.1, ValueType::BSTR(String::from("a")));
    let got = obj.get_property("Pid").unwrap().unwrap();
    assert_eq!(got.1, ValueType::I4(7));
}

#[test]
fn get_property_on_a_missing_name_is_an_error() {
    let obj = IWbemClassObjectWrapper::new(vec![text_prop("Name", "a")]);
    assert_eq!(obj.get_property("Missing"), Err(WMIError::PropertyNotFound));
}

#[test]
fn empty_and_null_tagged_values_resolve_to_none() {
    let obj = IWbemClassObjectWrapper::new(vec![
        tagged_prop("WasEmpty", VT_EMPTY),
        tagged_prop("WasNull", VT_NULL),
        text_prop("Name", "a"),
    ]);
    assert_eq!(obj.get_property("WasEmpty"), Ok(None));
    assert_eq!(obj.get_property("WasNull"), Ok(None));
}

#[test]
fn empty_and_null_keys_are_absent_from_the_bag() {
    let obj = IWbemClassObjectWrapper::new(vec![
        tagged_prop("WasEmpty", VT_EMPTY),
        tagged_prop("WasNull", VT_NULL),
        text_prop("Name", "a"),
    ]);
    let bag = obj.get_properties(false).unwrap().unwrap();
    assert_eq!(bag.len(), 1);
    assert!(bag.get("WasEmpty").is_none());
    assert!(bag.get("WasNull").is_none());
    assert_eq!(bag.get("Name"), Some(&ValueType::BSTR(String::from("a"))));
}

#[test]
fn unrecognized_tags_are_omitted_without_blocking_the_rest() {
    let obj = IWbemClassObjectWrapper::new(vec![
        tagged_prop("Odd", 999),
        i4_prop("Pid", 7),
    ]);
    assert_eq!(obj.get_property("Odd"), Ok(None));
    let bag = obj.get_properties(false).unwrap().unwrap();
    assert_eq!(bag.len(), 1);
    assert_eq!(bag.get("Pid"), Some(&ValueType::I4(7)));
}

#[test]
fn system_prefixed_names_are_skipped_on_request() {
    let obj = IWbemClassObjectWrapper::new(vec![
        text_prop("__Genus", "2"),
        text_prop("Name", "a"),
    ]);
    let bag = obj.get_properties(true).unwrap().unwrap();
    assert_eq!(bag.len(), 1);
    assert!(bag.get("__Genus").is_none());
    let bag = obj.get_properties(false).unwrap().unwrap();
    assert_eq!(bag.len(), 2);
    assert_eq!(bag.get("__Genus"), Some(&ValueType::BSTR(String::from("2"))));
}

#[test]
fn an_object_without_names_yields_no_bag() {
    let obj = IWbemClassObjectWrapper::new(vec![]);
    assert_eq!(obj.get_properties(true).unwrap(), None);
}

#[test]
fn a_bag_is_never_returned_empty_but_present() {
    // A single Null-tagged property resolves absent: no bag.
    let obj = IWbemClassObjectWrapper::new(vec![tagged_prop("WasNull", VT_NULL)]);
    assert_eq!(obj.get_properties(false).unwrap(), None);

    // A single Empty-tagged property resolves absent: no bag.
    let obj = IWbemClassObjectWrapper::new(vec![tagged_prop("WasEmpty", VT_EMPTY)]);
    assert_eq!(obj.get_properties(false).unwrap(), None);

    // Every name filtered out by the system-prefix filter: no bag.
    let obj = IWbemClassObjectWrapper::new(vec![text_prop("__Genus", "2")]);
    assert_eq!(obj.get_properties(true).unwrap(), None);
}

#[test]
fn a_bad_embedded_object_aborts_the_bag_with_an_error() {
    let inner = IWbemClassObjectWrapper::new(vec![]);
    let obj = IWbemClassObjectWrapper::new(vec![
        Property {
            name: String::from("Bad"),
            value: WireValue {
                vt: VT_UNKNOWN,
                cim_type: 2,
                payload: WirePayload::Unknown(inner),
            },
        },
        text_prop("Name", "a"),
    ]);
    assert_eq!(obj.get_properties(false), Err(WMIError::NotCimObject));
}

#[test]
fn get_embedded_object_unwraps_the_envelope() {
    let inner = IWbemClassObjectWrapper::new(vec![text_prop("Name", "a")]);
    let outer = IWbemClassObjectWrapper::new(vec![Property {
        name: String::from("TargetInstance"),
        value: WireValue {
            vt: VT_UNKNOWN,
            cim_type: CIM_OBJECT,
            payload: WirePayload::Unknown(inner),
        },
    }]);
    let got = outer.get_embedded_object("TargetInstance").unwrap();
    assert_eq!(got, IWbemClassObjectWrapper::new(vec![text_prop("Name", "a")]));
}

#[test]
fn get_embedded_object_rejects_a_property_not_marked_as_object() {
    let obj = IWbemClassObjectWrapper::new(vec![text_prop("Name", "a")]);
    assert_eq!(obj.get_embedded_object("Name"), Err(WMIError::NotCimObject));
}

#[test]
fn get_embedded_object_reports_a_marked_property_without_a_reference() {
    let obj = IWbemClassObjectWrapper::new(vec![Property {
        name: String::from("TargetInstance"),
        value: WireValue { vt: VT_BOOL, cim_type: CIM_OBJECT, payload: WirePayload::Bool(1) },
    }]);
    assert_eq!(
        obj.get_embedded_object("TargetInstance"),
        Err(WMIError::NullPointerResult)
    );
}

#[test]
fn retain_copies_the_whole_handle() {
    let obj = IWbemClassObjectWrapper::new(vec![text_prop("Name", "a"), i4_prop("Pid", 7)]);
    let copy = obj.retain();
    assert_eq!(copy, obj);
}
