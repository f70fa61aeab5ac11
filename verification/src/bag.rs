//! The property bag: the resolved name-to-value mapping for one managed
//! object, in resolution order.
//!
//! A bag assembled by the object accessor carries unique keys (the
//! service reports each property name once) and never carries a key
//! whose wire value was Empty or Null; see the accessor's laws.

use vstd::prelude::*;

use crate::wire::{ValueType, ValueTypeV};

verus! {

/// The resolved properties of one object: name-to-value entries in
/// resolution order.
#[derive(Debug, PartialEq)]
pub struct PropertyBag {
    pub entries: Vec<(String, ValueType)>,
}

impl View for PropertyBag {
    type V = Seq<(Seq<char>, ValueTypeV)>;

    open spec fn view(&self) -> Seq<(Seq<char>, ValueTypeV)> {
        Seq::new(self.entries@.len(), |i: int| (self.entries@[i].0@, self.entries@[i].1@))
    }
}

/// Whether the entries carry `name` as a key.
pub open spec fn bag_contains(entries: Seq<(Seq<char>, ValueTypeV)>, name: Seq<char>) -> bool {
    exists|i: int| 0 <= i < entries.len() && entries[i].0 == name
}

/// The value under the first entry carrying `name`, if any.
pub open spec fn bag_lookup(entries: Seq<(Seq<char>, ValueTypeV)>, name: Seq<char>) -> Option<
    ValueTypeV,
>
    decreases entries.len(),
{
    if entries.len() == 0 {
        None
    } else if entries[0].0 == name {
        Some(entries[0].1)
    } else {
        bag_lookup(entries.drop_first(), name)
    }
}

/// A lookup yields a value under a key exactly when the bag carries that
/// key: what the accessor's absence law states through [`bag_contains`]
/// is what [`PropertyBag::get`] reports through [`bag_lookup`].
pub proof fn lemma_lookup_iff_contains(entries: Seq<(Seq<char>, ValueTypeV)>, name: Seq<char>)
    ensures
        bag_lookup(entries, name) is Some <==> bag_contains(entries, name),
    decreases entries.len(),
{
    if entries.len() == 0 {
    } else if entries[0].0 == name {
    } else {
        lemma_lookup_iff_contains(entries.drop_first(), name);
        if bag_contains(entries.drop_first(), name) {
            let k = choose|k: int|
                0 <= k < entries.drop_first().len() && entries.drop_first()[k].0 == name;
            assert(entries[k + 1].0 == name);
        }
        if bag_contains(entries, name) {
            let k = choose|k: int| 0 <= k < entries.len() && entries[k].0 == name;
            assert(entries.drop_first()[k - 1].0 == name);
        }
    }
}

/// A well-formed bag carries each key once.
pub open spec fn bag_wf(entries: Seq<(Seq<char>, ValueTypeV)>) -> bool {
    forall|i: int, j: int| 0 <= i < j < entries.len() ==> entries[i].0 != entries[j].0
}

impl PropertyBag {
    /// An empty bag.
    pub fn new() -> (r: Self)
        ensures
            r@ == Seq::<(Seq<char>, ValueTypeV)>::empty(),
    {
        let r = PropertyBag { entries: Vec::new() };
        assert(r@ =~= Seq::<(Seq<char>, ValueTypeV)>::empty());
        r
    }

    /// The number of entries.
    pub fn len(&self) -> (n: usize)
        ensures
            n == self@.len(),
    {
        self.entries.len()
    }

    /// Appends one entry. Uniqueness of keys is the caller's concern:
    /// the accessor that assembles a bag feeds it each name once.
    pub fn insert(&mut self, name: String, value: ValueType)
        ensures
            final(self)@ == old(self)@.push((name@, value@)),
    {
        let ghost old_view = self@;
        self.entries.push((name, value));
        assert(self@ =~= old_view.push((name@, value@)));
    }

    /// Borrows the value under `name`, if the bag carries that key.
    pub fn get(&self, name: &str) -> (r: Option<&ValueType>)
        ensures
            match r {
                Some(v) => bag_lookup(self@, name@) == Some(v@),
                None => bag_lookup(self@, name@) is None,
            },
    {
        let key: String = name.to_owned();
        let n = self.entries.len();
        assert(self@.skip(0) =~= self@);
        for i in 0..n
            invariant
                n == self.entries.len(),
                key@ == name@,
                bag_lookup(self@, name@) == bag_lookup(self@.skip(i as int), name@),
        {
            assert(self@.skip(i as int)[0] == self@[i as int]);
            if self.entries[i].0 == key {
                return Some(&self.entries[i].1);
            }
            assert(self@.skip(i as int).drop_first() =~= self@.skip(i + 1));
        }
        None
    }
}

} // verus!
