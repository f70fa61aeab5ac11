//! Decoder round trips and fallback behavior over concrete wire values.

use wmi_query::decode::{decode_value, encode_value, AbsentReason, Decoded};
use wmi_query::errors::WMIError;
use wmi_query::wire::{
    IWbemClassObjectWrapper, Property, SafeArrayInfo, ValueType, WirePayload, WireValue,
    CIM_OBJECT, VT_BOOL, VT_I4, VT_INT, VT_NULL, VT_UI4, VT_UINT, VT_UNKNOWN, VT_VOID,
};

fn round_trips(v: ValueType) -> ValueType {
    let wire = encode_value(v);
    match decode_value(wire) {
        Ok(Decoded::Value(out)) => out,
        other => panic!("expected a populated value, got {:?}", other),
    }
}

#[test]
fn text_round_trips() {
    let v = ValueType::BSTR(String::from("notepad.exe"));
    assert_eq!(round_trips(v), ValueType::BSTR(String::from("notepad.exe")));
}

#[test]
fn signed_integers_round_trip() {
    assert_eq!(round_trips(ValueType::I2(-7)), ValueType::I2(-7));
    assert_eq!(round_trips(ValueType::I4(1234)), ValueType::I4(1234));
    assert_eq!(round_trips(ValueType::I8(-99999999999)), ValueType::I8(-99999999999));
}

#[test]
fn unsigned_integers_round_trip() {
    assert_eq!(round_trips(ValueType::UI1(255)), ValueType::UI1(255));
    assert_eq!(round_trips(ValueType::UI2(65535)), ValueType::UI2(65535));
    assert_eq!(round_trips(ValueType::UI4(4000000000)), ValueType::UI4(4000000000));
    assert_eq!(round_trips(ValueType::UI8(u64::MAX)), ValueType::UI8(u64::MAX));
}

#[test]
fn float_bit_patterns_round_trip() {
    let f4 = 1.5f32.to_bits();
    let f8 = (-2.25f64).to_bits();
    assert_eq!(round_trips(ValueType::R4(f4)), ValueType::R4(f4));
    assert_eq!(round_trips(ValueType::R8(f8)), ValueType::R8(f8));
}

#[test]
fn booleans_round_trip() {
    assert_eq!(round_trips(ValueType::BOOL(true)), ValueType::BOOL(true));
    assert_eq!(round_trips(ValueType::BOOL(false)), ValueType::BOOL(false));
}

#[test]
fn arrays_round_trip_opaquely() {
    let a = SafeArrayInfo { dims: 1, elements: 16 };
    assert_eq!(round_trips(ValueType::SAFEARRAY(a)), ValueType::SAFEARRAY(a));
}

#[test]
fn nested_objects_round_trip() {
    let inner = IWbemClassObjectWrapper::new(vec![Property {
        name: String::from("Name"),
        value: WireValue {
            vt: wmi_query::wire::VT_BSTR,
            cim_type: 8,
            payload: WirePayload::Bstr(String::from("x")),
        },
    }]);
    let expected = IWbemClassObjectWrapper::new(vec![Property {
        name: String::from("Name"),
        value: WireValue {
            vt: wmi_query::wire::VT_BSTR,
            cim_type: 8,
            payload: WirePayload::Bstr(String::from("x")),
        },
    }]);
    assert_eq!(
        round_trips(ValueType::CIM_OBJECT(inner)),
        ValueType::CIM_OBJECT(expected)
    );
}

#[test]
fn any_nonzero_wire_boolean_is_true() {
    let w = WireValue { vt: VT_BOOL, cim_type: 11, payload: WirePayload::Bool(5) };
    assert_eq!(decode_value(w), Ok(Decoded::Value(ValueType::BOOL(true))));
    let w = WireValue { vt: VT_BOOL, cim_type: 11, payload: WirePayload::Bool(0) };
    assert_eq!(decode_value(w), Ok(Decoded::Value(ValueType::BOOL(false))));
}

#[test]
fn int_and_uint_tags_alias_the_four_byte_widths() {
    let w = WireValue { vt: VT_INT, cim_type: 3, payload: WirePayload::I4(-5) };
    assert_eq!(decode_value(w), Ok(Decoded::Value(ValueType::I4(-5))));
    let w = WireValue { vt: VT_UINT, cim_type: 19, payload: WirePayload::UI4(5) };
    assert_eq!(decode_value(w), Ok(Decoded::Value(ValueType::UI4(5))));
}

#[test]
fn non_canonical_wire_forms_round_trip_at_the_value_level() {
    // Alternate four-byte tags: the decoded value re-encodes under the
    // canonical tag, but decoding again gives an equal value of the
    // same kind.
    let w = WireValue { vt: VT_INT, cim_type: 3, payload: WirePayload::I4(-5) };
    let v = match decode_value(w) {
        Ok(Decoded::Value(v)) => v,
        other => panic!("expected a populated value, got {:?}", other),
    };
    assert_eq!(decode_value(encode_value(v)), Ok(Decoded::Value(ValueType::I4(-5))));

    let w = WireValue { vt: VT_UINT, cim_type: 19, payload: WirePayload::UI4(5) };
    let v = match decode_value(w) {
        Ok(Decoded::Value(v)) => v,
        other => panic!("expected a populated value, got {:?}", other),
    };
    assert_eq!(decode_value(encode_value(v)), Ok(Decoded::Value(ValueType::UI4(5))));

    // A non-canonical boolean payload: any non-zero value means true.
    let w = WireValue { vt: VT_BOOL, cim_type: 11, payload: WirePayload::Bool(7) };
    let v = match decode_value(w) {
        Ok(Decoded::Value(v)) => v,
        other => panic!("expected a populated value, got {:?}", other),
    };
    assert_eq!(decode_value(encode_value(v)), Ok(Decoded::Value(ValueType::BOOL(true))));
}

#[test]
fn empty_and_null_tags_yield_no_value() {
    let w = WireValue { vt: 0, cim_type: 0, payload: WirePayload::Nothing };
    assert_eq!(decode_value(w), Ok(Decoded::Absent(AbsentReason::EmptyTag)));
    let w = WireValue { vt: VT_NULL, cim_type: 0, payload: WirePayload::Nothing };
    assert_eq!(decode_value(w), Ok(Decoded::Absent(AbsentReason::NullTag)));
}

#[test]
fn unrecognized_tags_yield_no_value_with_a_diagnostic() {
    let w = WireValue { vt: 999, cim_type: 0, payload: WirePayload::Nothing };
    assert_eq!(decode_value(w), Ok(Decoded::Absent(AbsentReason::UnsupportedTag(999))));
    let w = WireValue { vt: VT_VOID, cim_type: 0, payload: WirePayload::Nothing };
    assert_eq!(
        decode_value(w),
        Ok(Decoded::Absent(AbsentReason::UnsupportedTag(VT_VOID)))
    );
}

#[test]
fn one_byte_signed_is_unsupported_on_this_wire() {
    let wire = encode_value(ValueType::I1(-3));
    assert_eq!(
        decode_value(wire),
        Ok(Decoded::Absent(AbsentReason::UnsupportedTag(wmi_query::wire::VT_I1)))
    );
}

#[test]
fn empty_value_encodes_to_a_wire_value_that_yields_no_value() {
    let wire = encode_value(ValueType::EMPTY);
    assert_eq!(decode_value(wire), Ok(Decoded::Absent(AbsentReason::EmptyTag)));
}

#[test]
fn interface_reference_not_marked_as_object_is_an_error() {
    let obj = IWbemClassObjectWrapper::new(vec![]);
    let w = WireValue { vt: VT_UNKNOWN, cim_type: 2, payload: WirePayload::Unknown(obj) };
    assert_eq!(decode_value(w), Err(WMIError::NotCimObject));
}

#[test]
fn interface_reference_with_mismatched_payload_is_skipped() {
    let w = WireValue { vt: VT_UNKNOWN, cim_type: CIM_OBJECT, payload: WirePayload::I4(1) };
    assert_eq!(
        decode_value(w),
        Ok(Decoded::Absent(AbsentReason::MistypedPayload(VT_UNKNOWN)))
    );
}

#[test]
fn mismatched_payload_for_a_known_tag_is_skipped() {
    let w = WireValue { vt: VT_I4, cim_type: 3, payload: WirePayload::Bstr(String::from("x")) };
    assert_eq!(
        decode_value(w),
        Ok(Decoded::Absent(AbsentReason::MistypedPayload(VT_I4)))
    );
}
