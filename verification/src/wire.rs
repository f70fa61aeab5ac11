//! The wire data model: tagged values as the instrumentation service
//! reports them, the closed set of decoded property values, and the
//! modeled managed-object handle.
//!
//! A property arrives as a [`WireValue`]: a type tag drawn from an
//! open-ended tag space, the property's declared type, and a payload.
//! Decoding (see `decode`) maps it into the closed sum [`ValueType`],
//! with a mandatory "unsupported, ignore" fallback for tags this library
//! does not know.

use vstd::prelude::*;

verus! {

// The view of a managed object recurses through its property vector;
// these axioms let the termination measure step from a vector to its
// view and from a sequence to its elements.
broadcast use vstd::std_specs::vec::axiom_vec_decreases_to_view, vstd::seq::axiom_seq_index_decreases;

// Wire type tags. The tag space is open-ended; these are the tags the
// decoder recognizes.
pub const VT_EMPTY: u16 = 0;
pub const VT_NULL: u16 = 1;
pub const VT_I2: u16 = 2;
pub const VT_I4: u16 = 3;
pub const VT_R4: u16 = 4;
pub const VT_R8: u16 = 5;
pub const VT_BSTR: u16 = 8;
pub const VT_BOOL: u16 = 11;
pub const VT_UNKNOWN: u16 = 13;
pub const VT_I1: u16 = 16;
pub const VT_UI1: u16 = 17;
pub const VT_UI2: u16 = 18;
pub const VT_UI4: u16 = 19;
pub const VT_I8: u16 = 20;
pub const VT_UI8: u16 = 21;
pub const VT_INT: u16 = 22;
pub const VT_UINT: u16 = 23;
pub const VT_VOID: u16 = 24;
pub const VT_SAFEARRAY: u16 = 27;

/// The declared property type that marks a property as an embedded object.
pub const CIM_OBJECT: i32 = 13;

/// Descriptor of an opaque array payload: its dimension count and the
/// element count of its first bound. The raw view behind it is never
/// exposed; callers needing structured contents decode elements themselves.
#[derive(Clone, Copy, Debug, PartialEq, Eq, Structural)]
pub struct SafeArrayInfo {
    pub dims: u16,
    pub elements: u32,
}

/// The payload half of a tagged wire value, as a variant per carrier the
/// wire format uses. Which carrier is meaningful is decided by the tag
/// alone; a payload that does not match its tag decodes to "no value".
///
/// Floating-point payloads are carried as raw bit patterns: this library
/// never computes with them, it only moves them.
#[derive(Debug, PartialEq)]
pub enum WirePayload {
    /// No payload (Empty, Null, and unrecognized tags).
    Nothing,
    I1(i8),
    I2(i16),
    I4(i32),
    I8(i64),
    UI1(u8),
    UI2(u16),
    UI4(u32),
    UI8(u64),
    /// 32-bit float, as its bit pattern.
    R4(u32),
    /// 64-bit float, as its bit pattern.
    R8(u64),
    /// Wire boolean: any non-zero value means true.
    Bool(i16),
    /// Text payload.
    Bstr(String),
    /// An interface reference; meaningful only when the property's
    /// declared type marks it as an embedded object.
    Unknown(IWbemClassObjectWrapper),
    /// An opaque array payload.
    Array(SafeArrayInfo),
}

/// One tagged value as read from the wire: the variant type tag, the
/// property's declared type, and the payload.
#[derive(Debug, PartialEq)]
pub struct WireValue {
    /// The variant type tag.
    pub vt: u16,
    /// The property's declared type (e.g. [`CIM_OBJECT`] for embedded objects).
    pub cim_type: i32,
    /// The carried value.
    pub payload: WirePayload,
}

/// A decoded property value: the closed set of semantic kinds this
/// library understands. Exactly one variant is populated per instance;
/// the wire's Empty and Null tags decode to "no value", never to a
/// populated `EMPTY` variant.
#[allow(non_camel_case_types)]
#[derive(Debug, PartialEq)]
#[non_exhaustive]
pub enum ValueType {
    /// Stands for an absent field when a record shape is filled from a
    /// property bag; the decoder never produces it.
    EMPTY,
    /// An embedded managed object.
    CIM_OBJECT(IWbemClassObjectWrapper),
    /// Text.
    BSTR(String),
    I1(i8),
    I2(i16),
    I4(i32),
    I8(i64),
    UI1(u8),
    UI2(u16),
    UI4(u32),
    UI8(u64),
    /// 32-bit float, as its bit pattern.
    R4(u32),
    /// 64-bit float, as its bit pattern.
    R8(u64),
    BOOL(bool),
    /// An opaque array, passed through undecoded.
    SAFEARRAY(SafeArrayInfo),
}

/// One named property of a managed object, still in wire form.
#[derive(Debug, PartialEq)]
pub struct Property {
    pub name: String,
    pub value: WireValue,
}

/// A handle to one instance of a service-side object, modeled as the
/// sequence of named wire properties the service reports for it, in
/// report order.
///
/// The real handle is an opaque, reference-counted object reference;
/// sharing it beyond a borrowed delivery batch requires an explicit
/// [`retain`](crate::object) at capture time, which this model performs
/// by copying the property sequence.
#[derive(Debug, PartialEq)]
pub struct IWbemClassObjectWrapper {
    pub props: Vec<Property>,
}

// ---------------------------------------------------------------------
// Mathematical views. Contracts in this library are stated over these
// ghost mirrors, in which text is a sequence of characters and property
// lists are sequences.
// ---------------------------------------------------------------------

/// Ghost mirror of [`WirePayload`].
pub enum WirePayloadV {
    Nothing,
    I1(i8),
    I2(i16),
    I4(i32),
    I8(i64),
    UI1(u8),
    UI2(u16),
    UI4(u32),
    UI8(u64),
    R4(u32),
    R8(u64),
    Bool(i16),
    Bstr(Seq<char>),
    Unknown(ObjectV),
    Array(SafeArrayInfo),
}

/// Ghost mirror of [`WireValue`].
pub struct WireValueV {
    pub vt: u16,
    pub cim_type: i32,
    pub payload: WirePayloadV,
}

/// Ghost mirror of [`ValueType`].
#[allow(non_camel_case_types)]
pub enum ValueTypeV {
    EMPTY,
    CIM_OBJECT(ObjectV),
    BSTR(Seq<char>),
    I1(i8),
    I2(i16),
    I4(i32),
    I8(i64),
    UI1(u8),
    UI2(u16),
    UI4(u32),
    UI8(u64),
    R4(u32),
    R8(u64),
    BOOL(bool),
    SAFEARRAY(SafeArrayInfo),
}

/// Ghost mirror of [`Property`].
pub struct PropertyV {
    pub name: Seq<char>,
    pub value: WireValueV,
}

/// Ghost mirror of [`IWbemClassObjectWrapper`].
pub struct ObjectV {
    pub props: Seq<PropertyV>,
}

pub open spec fn view_payload(p: WirePayload) -> WirePayloadV
    decreases p,
{
    match p {
        WirePayload::Nothing => WirePayloadV::Nothing,
        WirePayload::I1(x) => WirePayloadV::I1(x),
        WirePayload::I2(x) => WirePayloadV::I2(x),
        WirePayload::I4(x) => WirePayloadV::I4(x),
        WirePayload::I8(x) => WirePayloadV::I8(x),
        WirePayload::UI1(x) => WirePayloadV::UI1(x),
        WirePayload::UI2(x) => WirePayloadV::UI2(x),
        WirePayload::UI4(x) => WirePayloadV::UI4(x),
        WirePayload::UI8(x) => WirePayloadV::UI8(x),
        WirePayload::R4(x) => WirePayloadV::R4(x),
        WirePayload::R8(x) => WirePayloadV::R8(x),
        WirePayload::Bool(x) => WirePayloadV::Bool(x),
        WirePayload::Bstr(s) => WirePayloadV::Bstr(s@),
        WirePayload::Unknown(obj) => WirePayloadV::Unknown(view_object(obj)),
        WirePayload::Array(a) => WirePayloadV::Array(a),
    }
}

pub open spec fn view_wire(v: WireValue) -> WireValueV
    decreases v,
{
    WireValueV { vt: v.vt, cim_type: v.cim_type, payload: view_payload(v.payload) }
}

pub open spec fn view_prop(p: Property) -> PropertyV
    decreases p,
{
    PropertyV { name: p.name@, value: view_wire(p.value) }
}

pub open spec fn view_object(o: IWbemClassObjectWrapper) -> ObjectV
    decreases o,
{
    ObjectV {
        props: Seq::new(
            o.props@.len(),
            |i: int|
                if 0 <= i < o.props@.len() {
                    view_prop(o.props@[i])
                } else {
                    vstd::pervasive::arbitrary()
                },
        ),
    }
}

pub open spec fn view_value(v: ValueType) -> ValueTypeV
    decreases v,
{
    match v {
        ValueType::EMPTY => ValueTypeV::EMPTY,
        ValueType::CIM_OBJECT(obj) => ValueTypeV::CIM_OBJECT(view_object(obj)),
        ValueType::BSTR(s) => ValueTypeV::BSTR(s@),
        ValueType::I1(x) => ValueTypeV::I1(x),
        ValueType::I2(x) => ValueTypeV::I2(x),
        ValueType::I4(x) => ValueTypeV::I4(x),
        ValueType::I8(x) => ValueTypeV::I8(x),
        ValueType::UI1(x) => ValueTypeV::UI1(x),
        ValueType::UI2(x) => ValueTypeV::UI2(x),
        ValueType::UI4(x) => ValueTypeV::UI4(x),
        ValueType::UI8(x) => ValueTypeV::UI8(x),
        ValueType::R4(x) => ValueTypeV::R4(x),
        ValueType::R8(x) => ValueTypeV::R8(x),
        ValueType::BOOL(b) => ValueTypeV::BOOL(b),
        ValueType::SAFEARRAY(a) => ValueTypeV::SAFEARRAY(a),
    }
}

impl View for WirePayload {
    type V = WirePayloadV;

    open spec fn view(&self) -> WirePayloadV {
        view_payload(*self)
    }
}

impl View for WireValue {
    type V = WireValueV;

    open spec fn view(&self) -> WireValueV {
        view_wire(*self)
    }
}

impl View for ValueType {
    type V = ValueTypeV;

    open spec fn view(&self) -> ValueTypeV {
        view_value(*self)
    }
}

impl View for Property {
    type V = PropertyV;

    open spec fn view(&self) -> PropertyV {
        view_prop(*self)
    }
}

impl View for IWbemClassObjectWrapper {
    type V = ObjectV;

    open spec fn view(&self) -> ObjectV {
        view_object(*self)
    }
}

/// Property names are unique on a well-formed object, as the service
/// reports them.
pub open spec fn distinct_names(props: Seq<PropertyV>) -> bool {
    forall|i: int, j: int|
        0 <= i < j < props.len() ==> props[i].name != props[j].name
}

impl IWbemClassObjectWrapper {
    /// Wraps a list of named wire properties as one managed object.
    pub fn new(props: Vec<Property>) -> (r: Self)
        ensures
            r@.props.len() == props@.len(),
            forall|i: int| 0 <= i < props@.len() ==> r@.props[i] == props@[i]@,
    {
        Self { props }
    }

    /// A well-formed object reports each property name once.
    pub open spec fn wf(&self) -> bool {
        distinct_names(self@.props)
    }
}

} // verus!
