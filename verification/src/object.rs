//! The object accessor: reading named properties of one managed object,
//! unwrapping embedded objects, and assembling a property bag.
//!
//! Every accessor resolves properties through the value decoder: a
//! property whose wire value is Empty or Null is reported as absent (not
//! an error), and an unrecognized tag is likewise absent with an
//! advisory diagnostic.

use vstd::prelude::*;

use crate::bag::{bag_contains, bag_wf, PropertyBag};
use crate::decode::{decode_value, spec_decode, Decoded, DecodedV};
use crate::errors::WMIError;
use crate::wire::{
    distinct_names, IWbemClassObjectWrapper, ObjectV, Property, PropertyV, ValueType, ValueTypeV,
    WirePayload, WirePayloadV, WireValue, WireValueV, CIM_OBJECT, VT_EMPTY, VT_NULL,
};
use vstd::string::StrSliceExecFns;

verus! {

// Copying recurses through a property vector; these axioms let the
// termination measure step from a vector to its view and from a
// sequence to its elements.
broadcast use vstd::std_specs::vec::axiom_vec_decreases_to_view, vstd::seq::axiom_seq_index_decreases;

/// The names of a property list, in report order.
pub open spec fn names_of(props: Seq<PropertyV>) -> Seq<Seq<char>> {
    props.map_values(|p: PropertyV| p.name)
}

/// The wire value of the first property carrying `name`, if any. On a
/// well-formed object names are unique, so "first" is "the" property.
pub open spec fn lookup_prop(props: Seq<PropertyV>, name: Seq<char>) -> Option<WireValueV>
    decreases props.len(),
{
    if props.len() == 0 {
        None
    } else if props[0].name == name {
        Some(props[0].value)
    } else {
        lookup_prop(props.drop_first(), name)
    }
}

/// Copies one wire payload; the copy has the same view.
pub fn copy_payload(p: &WirePayload) -> (r: WirePayload)
    ensures
        r@ == p@,
    decreases *p,
{
    match p {
        WirePayload::Nothing => WirePayload::Nothing,
        WirePayload::I1(x) => WirePayload::I1(*x),
        WirePayload::I2(x) => WirePayload::I2(*x),
        WirePayload::I4(x) => WirePayload::I4(*x),
        WirePayload::I8(x) => WirePayload::I8(*x),
        WirePayload::UI1(x) => WirePayload::UI1(*x),
        WirePayload::UI2(x) => WirePayload::UI2(*x),
        WirePayload::UI4(x) => WirePayload::UI4(*x),
        WirePayload::UI8(x) => WirePayload::UI8(*x),
        WirePayload::R4(x) => WirePayload::R4(*x),
        WirePayload::R8(x) => WirePayload::R8(*x),
        WirePayload::Bool(x) => WirePayload::Bool(*x),
        WirePayload::Bstr(s) => WirePayload::Bstr(s.clone()),
        WirePayload::Unknown(obj) => WirePayload::Unknown(obj.retain()),
        WirePayload::Array(a) => WirePayload::Array(*a),
    }
}

/// Copies one tagged wire value; the copy has the same view.
pub fn copy_wire_value(v: &WireValue) -> (r: WireValue)
    ensures
        r@ == v@,
    decreases *v,
{
    WireValue { vt: v.vt, cim_type: v.cim_type, payload: copy_payload(&v.payload) }
}

/// Copies one named property; the copy has the same view.
pub fn copy_property(p: &Property) -> (r: Property)
    ensures
        r@ == p@,
    decreases *p,
{
    Property { name: p.name.clone(), value: copy_wire_value(&p.value) }
}

impl IWbemClassObjectWrapper {
    /// Takes a share of this handle for use beyond the scope in which it
    /// was received, as a reference-counted handle is retained at capture
    /// time; in this model the property sequence is copied.
    pub fn retain(&self) -> (r: Self)
        ensures
            r@ == self@,
        decreases *self,
    {
        let mut out: Vec<Property> = Vec::new();
        let n = self.props.len();
        for i in 0..n
            invariant
                n == self.props.len(),
                out.len() == i,
                forall|j: int| 0 <= j < i ==> out@[j]@ == self@.props[j],
        {
            assert(self@.props[i as int] == self.props@[i as int]@);
            out.push(copy_property(&self.props[i]));
        }
        let r = IWbemClassObjectWrapper { props: out };
        assert(r@.props =~= self@.props);
        r
    }

    /// Returns the object's property names, in the order the service
    /// reports them; empty if the object has none.
    pub fn get_property_names(&self) -> (r: Result<Vec<String>, WMIError>)
        ensures
            r matches Ok(names) && names.deep_view() == names_of(self@.props),
    {
        let mut names: Vec<String> = Vec::new();
        let n = self.props.len();
        for i in 0..n
            invariant
                n == self.props.len(),
                names.len() == i,
                forall|j: int| 0 <= j < i ==> names@[j]@ == self@.props[j].name,
        {
            assert(self@.props[i as int] == self.props@[i as int]@);
            names.push(self.props[i].name.clone());
        }
        assert(names.deep_view() =~= names_of(self@.props));
        Ok(names)
    }

    /// Position of the first property carrying `name`, if any.
    fn find_prop(&self, name: &str) -> (r: Option<usize>)
        ensures
            match r {
                Some(i) => i < self@.props.len() && self@.props[i as int].name == name@
                    && lookup_prop(self@.props, name@) == Some(self@.props[i as int].value),
                None => lookup_prop(self@.props, name@) is None,
            },
    {
        let key: String = name.to_owned();
        let n = self.props.len();
        assert(self@.props.skip(0) =~= self@.props);
        for i in 0..n
            invariant
                n == self.props.len(),
                key@ == name@,
                lookup_prop(self@.props, name@) == lookup_prop(
                    self@.props.skip(i as int),
                    name@,
                ),
        {
            assert(self@.props[i as int] == self.props@[i as int]@);
            assert(self@.props.skip(i as int)[0] == self@.props[i as int]);
            if self.props[i].name == key {
                return Some(i);
            }
            assert(self@.props.skip(i as int).drop_first() =~= self@.props.skip(i + 1));
        }
        None
    }
}

/// What [`IWbemClassObjectWrapper::get_property`] returns, as a function
/// of the object and the name alone.
pub open spec fn spec_get_property(o: ObjectV, name: Seq<char>) -> Result<
    Option<(Seq<char>, ValueTypeV)>,
    WMIError,
> {
    match lookup_prop(o.props, name) {
        Option::None => Err(WMIError::PropertyNotFound),
        Option::Some(wv) => match spec_decode(wv) {
            Err(e) => Err(e),
            Ok(DecodedV::Value(val)) => Ok(Some((name, val))),
            Ok(DecodedV::Absent(_)) => Ok(None),
        },
    }
}

/// The view of a property-resolution result.
pub open spec fn prop_result_view(r: Result<Option<(String, ValueType)>, WMIError>) -> Result<
    Option<(Seq<char>, ValueTypeV)>,
    WMIError,
> {
    match r {
        Ok(Option::None) => Ok(Option::None),
        Ok(Option::Some(p)) => Ok(Some((p.0@, p.1@))),
        Err(e) => Err(e),
    }
}

/// What [`IWbemClassObjectWrapper::get_embedded_object`] returns, as a
/// function of the object and the name alone.
pub open spec fn spec_get_embedded(o: ObjectV, name: Seq<char>) -> Result<ObjectV, WMIError> {
    match lookup_prop(o.props, name) {
        Option::None => Err(WMIError::PropertyNotFound),
        Option::Some(wv) => if wv.cim_type != CIM_OBJECT {
            Err(WMIError::NotCimObject)
        } else {
            match wv.payload {
                WirePayloadV::Unknown(obj) => Ok(obj),
                _ => Err(WMIError::NullPointerResult),
            }
        },
    }
}

/// The view of an embedded-object result.
pub open spec fn object_result_view(r: Result<IWbemClassObjectWrapper, WMIError>) -> Result<
    ObjectV,
    WMIError,
> {
    match r {
        Ok(obj) => Ok(obj@),
        Err(e) => Err(e),
    }
}

impl IWbemClassObjectWrapper {
    /// Resolves one property by name and decodes its wire value.
    ///
    /// Returns `None` (not an error) when the resolved value is
    /// semantically absent — tagged Empty or Null — or when the tag is
    /// unrecognized; the only errors are a name the object does not
    /// carry and an interface reference not marked as an embedded object.
    pub fn get_property(&self, name: &str) -> (r: Result<Option<(String, ValueType)>, WMIError>)
        ensures
            prop_result_view(r) == spec_get_property(self@, name@),
    {
        match self.find_prop(name) {
            Option::None => Err(WMIError::PropertyNotFound),
            Option::Some(i) => {
                assert(self@.props[i as int] == self.props@[i as int]@);
                let value = copy_wire_value(&self.props[i].value);
                match decode_value(value) {
                    Err(e) => Err(e),
                    Ok(Decoded::Value(val)) => Ok(Some((name.to_owned(), val))),
                    Ok(Decoded::Absent(_)) => Ok(None),
                }
            },
        }
    }

    /// Resolves a property that is itself an embedded object, used to
    /// unwrap an event envelope around the actual changed instance.
    ///
    /// Fails with [`WMIError::NotCimObject`] when the named property's
    /// declared type does not mark it as an embedded object, and with
    /// [`WMIError::NullPointerResult`] when it is so marked but carries
    /// no object reference.
    pub fn get_embedded_object(&self, name: &str) -> (r: Result<IWbemClassObjectWrapper, WMIError>)
        ensures
            object_result_view(r) == spec_get_embedded(self@, name@),
    {
        match self.find_prop(name) {
            Option::None => Err(WMIError::PropertyNotFound),
            Option::Some(i) => {
                assert(self@.props[i as int] == self.props@[i as int]@);
                if self.props[i].value.cim_type != CIM_OBJECT {
                    Err(WMIError::NotCimObject)
                } else {
                    match &self.props[i].value.payload {
                        WirePayload::Unknown(obj) => Ok(obj.retain()),
                        _ => Err(WMIError::NullPointerResult),
                    }
                }
            },
        }
    }
}

/// Names carrying the reserved system prefix are excluded from a bag
/// assembled with `skip_system`.
pub open spec fn has_system_prefix(name: Seq<char>) -> bool {
    name.len() >= 2 && name[0] == '_' && name[1] == '_'
}

/// Whether `name` starts with the reserved system prefix.
pub fn name_has_system_prefix(name: &str) -> (b: bool)
    ensures
        b == has_system_prefix(name@),
{
    let l = name.unicode_len();
    if l < 2 {
        false
    } else {
        name.get_char(0) == '_' && name.get_char(1) == '_'
    }
}

/// The entries a bag assembled from `props` carries, in report order,
/// or the first resolution error. A property is carried only when it
/// is not excluded by the system-prefix filter and its wire value
/// decodes to a populated value; absent and unsupported values are
/// omitted without aborting the rest.
pub open spec fn spec_collect(props: Seq<PropertyV>, skip_system: bool) -> Result<
    Seq<(Seq<char>, ValueTypeV)>,
    WMIError,
>
    decreases props.len(),
{
    if props.len() == 0 {
        Ok(Seq::empty())
    } else {
        let p = props[0];
        if skip_system && has_system_prefix(p.name) {
            spec_collect(props.drop_first(), skip_system)
        } else {
            match spec_decode(p.value) {
                Err(e) => Err(e),
                Ok(DecodedV::Value(v)) => match spec_collect(props.drop_first(), skip_system) {
                    Err(e) => Err(e),
                    Ok(rest) => Ok(seq![(p.name, v)] + rest),
                },
                Ok(DecodedV::Absent(_)) => spec_collect(props.drop_first(), skip_system),
            }
        }
    }
}

/// Collecting distributes over concatenation when the left part
/// resolves without error.
proof fn lemma_collect_append(s1: Seq<PropertyV>, s2: Seq<PropertyV>, skip_system: bool)
    requires
        spec_collect(s1, skip_system) is Ok,
    ensures
        spec_collect(s1 + s2, skip_system) == (match spec_collect(s2, skip_system) {
            Ok(t) => Ok::<Seq<(Seq<char>, ValueTypeV)>, WMIError>(
                spec_collect(s1, skip_system)->Ok_0 + t,
            ),
            Err(e) => Err(e),
        }),
    decreases s1.len(),
{
    if s1.len() == 0 {
        assert(s1 + s2 =~= s2);
        match spec_collect(s2, skip_system) {
            Ok(t) => {
                assert(spec_collect(s1, skip_system)->Ok_0 + t =~= t);
            },
            Err(_) => {},
        }
    } else {
        assert((s1 + s2)[0] == s1[0]);
        assert((s1 + s2).drop_first() =~= s1.drop_first() + s2);
        lemma_collect_append(s1.drop_first(), s2, skip_system);
        match spec_collect(s2, skip_system) {
            Ok(t) => {
                let rest1 = spec_collect(s1.drop_first(), skip_system)->Ok_0;
                match spec_decode(s1[0].value) {
                    Ok(DecodedV::Value(v)) => {
                        assert(seq![(s1[0].name, v)] + (rest1 + t) =~= (seq![(s1[0].name, v)]
                            + rest1) + t);
                    },
                    _ => {},
                }
            },
            Err(_) => {},
        }
    }
}

/// What [`IWbemClassObjectWrapper::get_properties`] returns, as a
/// function of the object and the filter alone: the first resolution
/// error, or `None` when nothing was assembled — an object reporting no
/// names at all, or one whose every property was filtered out or
/// resolved absent. A returned bag is never empty.
pub open spec fn spec_get_properties(o: ObjectV, skip_system: bool) -> Result<
    Option<Seq<(Seq<char>, ValueTypeV)>>,
    WMIError,
> {
    match spec_collect(o.props, skip_system) {
        Err(e) => Err(e),
        Ok(s) => if s.len() == 0 {
            Ok(None)
        } else {
            Ok(Some(s))
        },
    }
}

/// The view of a bag-assembly result.
pub open spec fn bag_result_view(r: Result<Option<PropertyBag>, WMIError>) -> Result<
    Option<Seq<(Seq<char>, ValueTypeV)>>,
    WMIError,
> {
    match r {
        Ok(Option::None) => Ok(Option::None),
        Ok(Option::Some(bag)) => Ok(Some(bag@)),
        Err(e) => Err(e),
    }
}

impl IWbemClassObjectWrapper {
    /// Enumerates all property names, optionally skipping the reserved
    /// system prefix, resolves each through the decoder, and assembles
    /// the property bag.
    ///
    /// Returns `None` when nothing was assembled — the object reports
    /// zero property names, or every property was filtered out or
    /// resolved absent: a bag is never returned empty-but-present. A
    /// decode of one property to "no value" omits that key; only an
    /// embedded-object mismatch aborts with an error.
    pub fn get_properties(&self, skip_system: bool) -> (r: Result<Option<PropertyBag>, WMIError>)
        requires
            self.wf(),
        ensures
            bag_result_view(r) == spec_get_properties(self@, skip_system),
            r matches Ok(Some(bag)) ==> bag_wf(bag@),
            r matches Ok(Some(bag)) ==> bag@.len() > 0,
    {
        let n = self.props.len();
        if n == 0 {
            return Ok(None);
        }
        let mut bag = PropertyBag::new();
        assert(self@.props.subrange(0, 0) =~= Seq::<PropertyV>::empty());
        for i in 0..n
            invariant
                n == self.props.len(),
                self.wf(),
                spec_collect(self@.props.subrange(0, i as int), skip_system) == Ok::<
                    Seq<(Seq<char>, ValueTypeV)>,
                    WMIError,
                >(bag@),
        {
            assert(self@.props[i as int] == self.props@[i as int]@);
            let ghost prefix = self@.props.subrange(0, i as int);
            let ghost here = seq![self@.props[i as int]];
            let ghost bag_before = bag@;
            assert(self@.props.subrange(0, i + 1) =~= prefix + here);
            assert(here.drop_first() =~= Seq::<PropertyV>::empty());
            assert(spec_collect(here.drop_first(), skip_system) == Ok::<
                Seq<(Seq<char>, ValueTypeV)>,
                WMIError,
            >(Seq::empty()));
            let skip_this = skip_system && name_has_system_prefix(self.props[i].name.as_str());
            if !skip_this {
                let value = copy_wire_value(&self.props[i].value);
                match decode_value(value) {
                    Err(e) => {
                        proof {
                            let tail = self@.props.skip(i as int);
                            assert(tail[0] == self@.props[i as int]);
                            assert(tail.drop_first() =~= self@.props.skip(i + 1));
                            assert(spec_collect(tail, skip_system) == Err::<
                                Seq<(Seq<char>, ValueTypeV)>,
                                WMIError,
                            >(e));
                            lemma_collect_append(prefix, tail, skip_system);
                            assert(prefix + tail =~= self@.props);
                        }
                        return Err(e);
                    },
                    Ok(Decoded::Value(val)) => {
                        let name = self.props[i].name.clone();
                        bag.insert(name, val);
                    },
                    Ok(Decoded::Absent(_)) => {},
                }
            }
            proof {
                lemma_collect_append(prefix, here, skip_system);
                if !(skip_system && has_system_prefix(self@.props[i as int].name)) {
                    match spec_decode(self@.props[i as int].value) {
                        Ok(DecodedV::Value(v)) => {
                            assert(seq![(self@.props[i as int].name, v)] + Seq::<
                                (Seq<char>, ValueTypeV),
                            >::empty() =~= seq![(self@.props[i as int].name, v)]);
                            assert(spec_collect(here, skip_system) == Ok::<
                                Seq<(Seq<char>, ValueTypeV)>,
                                WMIError,
                            >(seq![(self@.props[i as int].name, v)]));
                            assert(bag@ =~= bag_before + seq![(self@.props[i as int].name, v)]);
                        },
                        _ => {
                            assert(bag@ =~= bag_before + Seq::<(Seq<char>, ValueTypeV)>::empty());
                        },
                    }
                } else {
                    assert(bag@ =~= bag_before + Seq::<(Seq<char>, ValueTypeV)>::empty());
                }
                assert(spec_collect(self@.props.subrange(0, i + 1), skip_system) == Ok::<
                    Seq<(Seq<char>, ValueTypeV)>,
                    WMIError,
                >(bag@));
            }
        }
        assert(self@.props.subrange(0, n as int) =~= self@.props);
        proof {
            lemma_collect_wf(self@.props, skip_system);
        }
        if bag.len() == 0 {
            Ok(None)
        } else {
            Ok(Some(bag))
        }
    }
}

/// Law: a bag assembled from an object with distinct property names
/// carries each key at most once.
pub proof fn lemma_collect_wf(props: Seq<PropertyV>, skip_system: bool)
    requires
        distinct_names(props),
        spec_collect(props, skip_system) is Ok,
    ensures
        bag_wf(spec_collect(props, skip_system)->Ok_0),
    decreases props.len(),
{
    let entries = spec_collect(props, skip_system)->Ok_0;
    if props.len() == 0 {
    } else {
        assert(distinct_names(props.drop_first())) by {
            assert forall|i: int, j: int|
                0 <= i < j < props.drop_first().len() implies props.drop_first()[i].name
                != props.drop_first()[j].name by {
                assert(props.drop_first()[i] == props[i + 1]);
                assert(props.drop_first()[j] == props[j + 1]);
            }
        }
        lemma_collect_wf(props.drop_first(), skip_system);
        let rest = spec_collect(props.drop_first(), skip_system)->Ok_0;
        if !(skip_system && has_system_prefix(props[0].name)) {
            match spec_decode(props[0].value) {
                Ok(DecodedV::Value(v)) => {
                    if bag_contains(rest, props[0].name) {
                        lemma_bag_key_is_a_prop_name(
                            props.drop_first(),
                            skip_system,
                            props[0].name,
                        );
                        let j = choose|j: int|
                            0 <= j < props.drop_first().len() && props.drop_first()[j].name
                                == props[0].name;
                        assert(props.drop_first()[j] == props[j + 1]);
                        assert(false);
                    }
                    assert forall|a: int, b: int|
                        0 <= a < b < entries.len() implies entries[a].0 != entries[b].0 by {
                        if a == 0 {
                            assert(entries[b] == rest[b - 1]);
                            if entries[b].0 == props[0].name {
                                assert(rest[b - 1].0 == props[0].name);
                                assert(bag_contains(rest, props[0].name));
                            }
                        } else {
                            assert(entries[a] == rest[a - 1]);
                            assert(entries[b] == rest[b - 1]);
                        }
                    }
                },
                _ => {},
            }
        }
    }
}

/// Every key an assembled bag carries is the name of some property of
/// the object it was assembled from.
pub proof fn lemma_bag_key_is_a_prop_name(
    props: Seq<PropertyV>,
    skip_system: bool,
    name: Seq<char>,
)
    requires
        spec_collect(props, skip_system) matches Ok(entries) && bag_contains(entries, name),
    ensures
        exists|j: int| 0 <= j < props.len() && props[j].name == name,
    decreases props.len(),
{
    let entries = spec_collect(props, skip_system)->Ok_0;
    let k = choose|k: int| 0 <= k < entries.len() && entries[k].0 == name;
    if props.len() == 0 {
        assert(false);
    } else {
        let rest = spec_collect(props.drop_first(), skip_system);
        if skip_system && has_system_prefix(props[0].name) {
            lemma_bag_key_is_a_prop_name(props.drop_first(), skip_system, name);
            let j = choose|j: int|
                0 <= j < props.drop_first().len() && props.drop_first()[j].name == name;
            assert(props[j + 1].name == name);
        } else {
            match spec_decode(props[0].value) {
                Ok(DecodedV::Value(v)) => {
                    if k == 0 {
                        assert(props[0].name == name);
                    } else {
                        assert(entries[k] == rest->Ok_0[k - 1]);
                        assert(bag_contains(rest->Ok_0, name));
                        lemma_bag_key_is_a_prop_name(props.drop_first(), skip_system, name);
                        let j = choose|j: int|
                            0 <= j < props.drop_first().len() && props.drop_first()[j].name
                                == name;
                        assert(props[j + 1].name == name);
                    }
                },
                Ok(DecodedV::Absent(_)) => {
                    lemma_bag_key_is_a_prop_name(props.drop_first(), skip_system, name);
                    let j = choose|j: int|
                        0 <= j < props.drop_first().len() && props.drop_first()[j].name == name;
                    assert(props[j + 1].name == name);
                },
                Err(_) => {
                    assert(false);
                },
            }
        }
    }
}

/// Law: a property whose wire value is tagged Empty or Null is absent
/// from any assembled property bag — the key is missing outright, never
/// present with a populated `EMPTY` variant.
pub proof fn lemma_absent_property_not_in_bag(
    props: Seq<PropertyV>,
    skip_system: bool,
    name: Seq<char>,
)
    requires
        distinct_names(props),
        lookup_prop(props, name) matches Some(wv) && (wv.vt == VT_EMPTY || wv.vt == VT_NULL),
        spec_collect(props, skip_system) is Ok,
    ensures
        !bag_contains(spec_collect(props, skip_system)->Ok_0, name),
    decreases props.len(),
{
    let entries = spec_collect(props, skip_system)->Ok_0;
    if props.len() == 0 {
        assert(false);
    } else {
        assert(distinct_names(props.drop_first())) by {
            assert forall|i: int, j: int|
                0 <= i < j < props.drop_first().len() implies props.drop_first()[i].name
                != props.drop_first()[j].name by {
                assert(props.drop_first()[i] == props[i + 1]);
                assert(props.drop_first()[j] == props[j + 1]);
            }
        }
        let rest = spec_collect(props.drop_first(), skip_system);
        if props[0].name == name {
            // The named property decodes to "no value", so the head
            // contributes nothing; no later property reuses the name.
            if bag_contains(entries, name) {
                lemma_bag_key_is_a_prop_name(props.drop_first(), skip_system, name);
                let j = choose|j: int|
                    0 <= j < props.drop_first().len() && props.drop_first()[j].name == name;
                assert(props.drop_first()[j] == props[j + 1]);
                assert(props[0].name == props[j + 1].name);
                assert(false);
            }
        } else {
            lemma_absent_property_not_in_bag(props.drop_first(), skip_system, name);
            if bag_contains(entries, name) {
                let k = choose|k: int| 0 <= k < entries.len() && entries[k].0 == name;
                if !(skip_system && has_system_prefix(props[0].name)) {
                    match spec_decode(props[0].value) {
                        Ok(DecodedV::Value(v)) => {
                            assert(k != 0);
                            assert(entries[k] == rest->Ok_0[k - 1]);
                            assert(bag_contains(rest->Ok_0, name));
                        },
                        _ => {},
                    }
                }
                assert(false);
            }
        }
    }
}

/// Law: a wire value tagged Empty or Null always resolves to `None`
/// from `get_property`, never to an error or a populated value.
pub proof fn lemma_empty_or_null_resolves_to_none(o: ObjectV, name: Seq<char>)
    requires
        lookup_prop(o.props, name) matches Some(wv) && (wv.vt == VT_EMPTY || wv.vt == VT_NULL),
    ensures
        spec_get_property(o, name) == Ok::<Option<(Seq<char>, ValueTypeV)>, WMIError>(None),
{
}

} // verus!
