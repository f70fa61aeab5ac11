//! Decoding tagged wire values into the closed set of semantic value
//! kinds, and the reverse encoding used by test doubles that simulate
//! the service.
//!
//! Decoding is total over the open-ended tag space: the Empty and Null
//! tags yield "no value", an unrecognized tag yields "no value" with a
//! diagnostic reason (a forward-compatibility requirement, not an error),
//! and only an interface reference whose declared type does not mark it
//! as an embedded object is rejected outright.

use vstd::prelude::*;

use crate::errors::WMIError;
use crate::wire::{
    ValueType, ValueTypeV, WirePayload, WirePayloadV, WireValue, WireValueV, CIM_OBJECT, VT_BOOL,
    VT_BSTR, VT_EMPTY, VT_I1, VT_I2, VT_I4, VT_I8, VT_INT, VT_NULL, VT_R4, VT_R8, VT_SAFEARRAY,
    VT_UI1, VT_UI2, VT_UI4, VT_UI8, VT_UINT, VT_UNKNOWN,
};

verus! {

/// Why a wire value decoded to "no value". Empty/Null is expected
/// behavior; an unsupported or mistyped value is advisory and is logged
/// at a diagnostic level by callers, never escalated.
#[derive(Clone, Copy, Debug, PartialEq, Eq, Structural)]
pub enum AbsentReason {
    /// The wire value was tagged Empty.
    EmptyTag,
    /// The wire value was tagged Null.
    NullTag,
    /// The tag is not one this library recognizes; carries the tag seen.
    UnsupportedTag(u16),
    /// The tag is recognized but the payload does not match it; carries
    /// the tag seen.
    MistypedPayload(u16),
}

/// The outcome of decoding one wire value: either a populated semantic
/// value, or "no value" with the reason.
#[derive(Debug, PartialEq)]
pub enum Decoded {
    Value(ValueType),
    Absent(AbsentReason),
}

/// Ghost mirror of [`Decoded`].
pub enum DecodedV {
    Value(ValueTypeV),
    Absent(AbsentReason),
}

impl View for Decoded {
    type V = DecodedV;

    open spec fn view(&self) -> DecodedV {
        match *self {
            Decoded::Value(v) => DecodedV::Value(v@),
            Decoded::Absent(r) => DecodedV::Absent(r),
        }
    }
}

/// The view of a decode result: views the outcome and keeps the error.
pub open spec fn decode_result_view(r: Result<Decoded, WMIError>) -> Result<DecodedV, WMIError> {
    match r {
        Ok(d) => Ok(d@),
        Err(e) => Err(e),
    }
}

/// What [`decode_value`] returns, as a function of the wire value alone.
pub open spec fn spec_decode(v: WireValueV) -> Result<DecodedV, WMIError> {
    if v.vt == VT_EMPTY {
        Ok(DecodedV::Absent(AbsentReason::EmptyTag))
    } else if v.vt == VT_NULL {
        Ok(DecodedV::Absent(AbsentReason::NullTag))
    } else if v.vt == VT_UNKNOWN {
        if v.cim_type != CIM_OBJECT {
            Err(WMIError::NotCimObject)
        } else {
            match v.payload {
                WirePayloadV::Unknown(obj) => Ok(DecodedV::Value(ValueTypeV::CIM_OBJECT(obj))),
                _ => Ok(DecodedV::Absent(AbsentReason::MistypedPayload(VT_UNKNOWN))),
            }
        }
    } else if v.vt == VT_BSTR {
        match v.payload {
            WirePayloadV::Bstr(s) => Ok(DecodedV::Value(ValueTypeV::BSTR(s))),
            _ => Ok(DecodedV::Absent(AbsentReason::MistypedPayload(VT_BSTR))),
        }
    } else if v.vt == VT_R4 {
        match v.payload {
            WirePayloadV::R4(bits) => Ok(DecodedV::Value(ValueTypeV::R4(bits))),
            _ => Ok(DecodedV::Absent(AbsentReason::MistypedPayload(VT_R4))),
        }
    } else if v.vt == VT_R8 {
        match v.payload {
            WirePayloadV::R8(bits) => Ok(DecodedV::Value(ValueTypeV::R8(bits))),
            _ => Ok(DecodedV::Absent(AbsentReason::MistypedPayload(VT_R8))),
        }
    } else if v.vt == VT_I2 {
        match v.payload {
            WirePayloadV::I2(x) => Ok(DecodedV::Value(ValueTypeV::I2(x))),
            _ => Ok(DecodedV::Absent(AbsentReason::MistypedPayload(VT_I2))),
        }
    } else if v.vt == VT_I4 || v.vt == VT_INT {
        match v.payload {
            WirePayloadV::I4(x) => Ok(DecodedV::Value(ValueTypeV::I4(x))),
            _ => Ok(DecodedV::Absent(AbsentReason::MistypedPayload(v.vt))),
        }
    } else if v.vt == VT_I8 {
        match v.payload {
            WirePayloadV::I8(x) => Ok(DecodedV::Value(ValueTypeV::I8(x))),
            _ => Ok(DecodedV::Absent(AbsentReason::MistypedPayload(VT_I8))),
        }
    } else if v.vt == VT_UI1 {
        match v.payload {
            WirePayloadV::UI1(x) => Ok(DecodedV::Value(ValueTypeV::UI1(x))),
            _ => Ok(DecodedV::Absent(AbsentReason::MistypedPayload(VT_UI1))),
        }
    } else if v.vt == VT_UI2 {
        match v.payload {
            WirePayloadV::UI2(x) => Ok(DecodedV::Value(ValueTypeV::UI2(x))),
            _ => Ok(DecodedV::Absent(AbsentReason::MistypedPayload(VT_UI2))),
        }
    } else if v.vt == VT_UI4 || v.vt == VT_UINT {
        match v.payload {
            WirePayloadV::UI4(x) => Ok(DecodedV::Value(ValueTypeV::UI4(x))),
            _ => Ok(DecodedV::Absent(AbsentReason::MistypedPayload(v.vt))),
        }
    } else if v.vt == VT_UI8 {
        match v.payload {
            WirePayloadV::UI8(x) => Ok(DecodedV::Value(ValueTypeV::UI8(x))),
            _ => Ok(DecodedV::Absent(AbsentReason::MistypedPayload(VT_UI8))),
        }
    } else if v.vt == VT_BOOL {
        match v.payload {
            WirePayloadV::Bool(x) => Ok(DecodedV::Value(ValueTypeV::BOOL(x != 0))),
            _ => Ok(DecodedV::Absent(AbsentReason::MistypedPayload(VT_BOOL))),
        }
    } else if v.vt == VT_SAFEARRAY {
        match v.payload {
            WirePayloadV::Array(a) => Ok(DecodedV::Value(ValueTypeV::SAFEARRAY(a))),
            _ => Ok(DecodedV::Absent(AbsentReason::MistypedPayload(VT_SAFEARRAY))),
        }
    } else {
        // The one-byte signed tag is defined not to occur on this wire
        // format and is treated as unsupported if seen, as is every tag
        // not covered above (e.g. VT_VOID).
        Ok(DecodedV::Absent(AbsentReason::UnsupportedTag(v.vt)))
    }
}

/// Decodes one tagged wire value into a semantic value, "no value", or a
/// rejection for an interface reference not marked as an embedded object.
pub fn decode_value(v: WireValue) -> (r: Result<Decoded, WMIError>)
    ensures
        decode_result_view(r) == spec_decode(v@),
{
    let WireValue { vt, cim_type, payload } = v;
    if vt == VT_EMPTY {
        Ok(Decoded::Absent(AbsentReason::EmptyTag))
    } else if vt == VT_NULL {
        Ok(Decoded::Absent(AbsentReason::NullTag))
    } else if vt == VT_UNKNOWN {
        if cim_type != CIM_OBJECT {
            Err(WMIError::NotCimObject)
        } else {
            match payload {
                WirePayload::Unknown(obj) => Ok(Decoded::Value(ValueType::CIM_OBJECT(obj))),
                _ => Ok(Decoded::Absent(AbsentReason::MistypedPayload(VT_UNKNOWN))),
            }
        }
    } else if vt == VT_BSTR {
        match payload {
            WirePayload::Bstr(s) => Ok(Decoded::Value(ValueType::BSTR(s))),
            _ => Ok(Decoded::Absent(AbsentReason::MistypedPayload(VT_BSTR))),
        }
    } else if vt == VT_R4 {
        match payload {
            WirePayload::R4(bits) => Ok(Decoded::Value(ValueType::R4(bits))),
            _ => Ok(Decoded::Absent(AbsentReason::MistypedPayload(VT_R4))),
        }
    } else if vt == VT_R8 {
        match payload {
            WirePayload::R8(bits) => Ok(Decoded::Value(ValueType::R8(bits))),
            _ => Ok(Decoded::Absent(AbsentReason::MistypedPayload(VT_R8))),
        }
    } else if vt == VT_I2 {
        match payload {
            WirePayload::I2(x) => Ok(Decoded::Value(ValueType::I2(x))),
            _ => Ok(Decoded::Absent(AbsentReason::MistypedPayload(VT_I2))),
        }
    } else if vt == VT_I4 || vt == VT_INT {
        match payload {
            WirePayload::I4(x) => Ok(Decoded::Value(ValueType::I4(x))),
            _ => Ok(Decoded::Absent(AbsentReason::MistypedPayload(vt))),
        }
    } else if vt == VT_I8 {
        match payload {
            WirePayload::I8(x) => Ok(Decoded::Value(ValueType::I8(x))),
            _ => Ok(Decoded::Absent(AbsentReason::MistypedPayload(VT_I8))),
        }
    } else if vt == VT_UI1 {
        match payload {
            WirePayload::UI1(x) => Ok(Decoded::Value(ValueType::UI1(x))),
            _ => Ok(Decoded::Absent(AbsentReason::MistypedPayload(VT_UI1))),
        }
    } else if vt == VT_UI2 {
        match payload {
            WirePayload::UI2(x) => Ok(Decoded::Value(ValueType::UI2(x))),
            _ => Ok(Decoded::Absent(AbsentReason::MistypedPayload(VT_UI2))),
        }
    } else if vt == VT_UI4 || vt == VT_UINT {
        match payload {
            WirePayload::UI4(x) => Ok(Decoded::Value(ValueType::UI4(x))),
            _ => Ok(Decoded::Absent(AbsentReason::MistypedPayload(vt))),
        }
    } else if vt == VT_UI8 {
        match payload {
            WirePayload::UI8(x) => Ok(Decoded::Value(ValueType::UI8(x))),
            _ => Ok(Decoded::Absent(AbsentReason::MistypedPayload(VT_UI8))),
        }
    } else if vt == VT_BOOL {
        match payload {
            WirePayload::Bool(x) => Ok(Decoded::Value(ValueType::BOOL(x != 0))),
            _ => Ok(Decoded::Absent(AbsentReason::MistypedPayload(VT_BOOL))),
        }
    } else if vt == VT_SAFEARRAY {
        match payload {
            WirePayload::Array(a) => Ok(Decoded::Value(ValueType::SAFEARRAY(a))),
            _ => Ok(Decoded::Absent(AbsentReason::MistypedPayload(VT_SAFEARRAY))),
        }
    } else {
        Ok(Decoded::Absent(AbsentReason::UnsupportedTag(vt)))
    }
}

/// The canonical wire form of a true boolean.
pub const WIRE_TRUE: i16 = -1;

/// The canonical wire value that a test double emits for one semantic
/// value. The declared property type is meaningful only for embedded
/// objects; for every other kind it is left at zero.
pub open spec fn spec_encode(v: ValueTypeV) -> WireValueV {
    match v {
        ValueTypeV::EMPTY => WireValueV {
            vt: VT_EMPTY,
            cim_type: 0,
            payload: WirePayloadV::Nothing,
        },
        ValueTypeV::CIM_OBJECT(obj) => WireValueV {
            vt: VT_UNKNOWN,
            cim_type: CIM_OBJECT,
            payload: WirePayloadV::Unknown(obj),
        },
        ValueTypeV::BSTR(s) => WireValueV {
            vt: VT_BSTR,
            cim_type: 0,
            payload: WirePayloadV::Bstr(s),
        },
        ValueTypeV::I1(x) => WireValueV { vt: VT_I1, cim_type: 0, payload: WirePayloadV::I1(x) },
        ValueTypeV::I2(x) => WireValueV { vt: VT_I2, cim_type: 0, payload: WirePayloadV::I2(x) },
        ValueTypeV::I4(x) => WireValueV { vt: VT_I4, cim_type: 0, payload: WirePayloadV::I4(x) },
        ValueTypeV::I8(x) => WireValueV { vt: VT_I8, cim_type: 0, payload: WirePayloadV::I8(x) },
        ValueTypeV::UI1(x) => WireValueV {
            vt: VT_UI1,
            cim_type: 0,
            payload: WirePayloadV::UI1(x),
        },
        ValueTypeV::UI2(x) => WireValueV {
            vt: VT_UI2,
            cim_type: 0,
            payload: WirePayloadV::UI2(x),
        },
        ValueTypeV::UI4(x) => WireValueV {
            vt: VT_UI4,
            cim_type: 0,
            payload: WirePayloadV::UI4(x),
        },
        ValueTypeV::UI8(x) => WireValueV {
            vt: VT_UI8,
            cim_type: 0,
            payload: WirePayloadV::UI8(x),
        },
        ValueTypeV::R4(bits) => WireValueV {
            vt: VT_R4,
            cim_type: 0,
            payload: WirePayloadV::R4(bits),
        },
        ValueTypeV::R8(bits) => WireValueV {
            vt: VT_R8,
            cim_type: 0,
            payload: WirePayloadV::R8(bits),
        },
        ValueTypeV::BOOL(b) => WireValueV {
            vt: VT_BOOL,
            cim_type: 0,
            payload: WirePayloadV::Bool(if b { WIRE_TRUE } else { 0 }),
        },
        ValueTypeV::SAFEARRAY(a) => WireValueV {
            vt: VT_SAFEARRAY,
            cim_type: 0,
            payload: WirePayloadV::Array(a),
        },
    }
}

/// Encodes one semantic value back into its canonical wire form, for
/// test doubles that simulate the service's side of the wire.
pub fn encode_value(v: ValueType) -> (r: WireValue)
    ensures
        r@ == spec_encode(v@),
{
    match v {
        ValueType::EMPTY => WireValue { vt: VT_EMPTY, cim_type: 0, payload: WirePayload::Nothing },
        ValueType::CIM_OBJECT(obj) => WireValue {
            vt: VT_UNKNOWN,
            cim_type: CIM_OBJECT,
            payload: WirePayload::Unknown(obj),
        },
        ValueType::BSTR(s) => WireValue { vt: VT_BSTR, cim_type: 0, payload: WirePayload::Bstr(s) },
        ValueType::I1(x) => WireValue { vt: VT_I1, cim_type: 0, payload: WirePayload::I1(x) },
        ValueType::I2(x) => WireValue { vt: VT_I2, cim_type: 0, payload: WirePayload::I2(x) },
        ValueType::I4(x) => WireValue { vt: VT_I4, cim_type: 0, payload: WirePayload::I4(x) },
        ValueType::I8(x) => WireValue { vt: VT_I8, cim_type: 0, payload: WirePayload::I8(x) },
        ValueType::UI1(x) => WireValue { vt: VT_UI1, cim_type: 0, payload: WirePayload::UI1(x) },
        ValueType::UI2(x) => WireValue { vt: VT_UI2, cim_type: 0, payload: WirePayload::UI2(x) },
        ValueType::UI4(x) => WireValue { vt: VT_UI4, cim_type: 0, payload: WirePayload::UI4(x) },
        ValueType::UI8(x) => WireValue { vt: VT_UI8, cim_type: 0, payload: WirePayload::UI8(x) },
        ValueType::R4(bits) => WireValue { vt: VT_R4, cim_type: 0, payload: WirePayload::R4(bits) },
        ValueType::R8(bits) => WireValue { vt: VT_R8, cim_type: 0, payload: WirePayload::R8(bits) },
        ValueType::BOOL(b) => WireValue {
            vt: VT_BOOL,
            cim_type: 0,
            payload: WirePayload::Bool(if b { WIRE_TRUE } else { 0 }),
        },
        ValueType::SAFEARRAY(a) => WireValue {
            vt: VT_SAFEARRAY,
            cim_type: 0,
            payload: WirePayload::Array(a),
        },
    }
}

/// Law: for every populated value kind the wire can carry, encoding it
/// for a test double and decoding the result yields an equal value of
/// the same kind.
///
/// `EMPTY` is excluded because a wire value tagged Empty decodes to "no
/// value" by design, never to a populated `EMPTY` variant; a one-byte
/// signed value is excluded because the wire format defines no one-byte
/// signed tag, so its encoding decodes as unsupported.
pub proof fn lemma_encode_decode_round_trip(v: ValueTypeV)
    requires
        !(v is EMPTY),
        !(v is I1),
    ensures
        spec_decode(spec_encode(v)) == Ok::<DecodedV, WMIError>(DecodedV::Value(v)),
{
}

/// Law: any wire value that decodes to a populated value round-trips at
/// the value level: re-encoding the decoded value for a test double and
/// decoding again yields an equal value of the same kind. This covers
/// the alternate four-byte integer tags and non-canonical boolean
/// payloads too, which re-encode under their canonical tag and payload
/// without changing the value or its kind.
pub proof fn lemma_decoded_value_round_trips(w: WireValueV)
    requires
        spec_decode(w) matches Ok(d) && d is Value,
    ensures
        ({
            let v = spec_decode(w)->Ok_0->Value_0;
            spec_decode(spec_encode(v)) == Ok::<DecodedV, WMIError>(DecodedV::Value(v))
        }),
{
    let v = spec_decode(w)->Ok_0->Value_0;
    // No wire tag decodes to the empty marker or to a one-byte signed
    // value, so the value-level identity applies to everything decoded.
    assert(!(v is EMPTY) && !(v is I1));
    lemma_encode_decode_round_trip(v);
}

/// A wire value tagged Empty never yields a populated value: its
/// canonical encoding decodes back to "no value".
pub proof fn lemma_empty_yields_no_value()
    ensures
        spec_decode(spec_encode(ValueTypeV::EMPTY)) == Ok::<DecodedV, WMIError>(
            DecodedV::Absent(AbsentReason::EmptyTag),
        ),
{
}

} // verus!
