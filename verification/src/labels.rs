//! The label table: which instruction each label stands for.

use vstd::prelude::*;
use vstd::hash_map::StringHashMap;

verus! {

/// The labels defined so far, each with the index of the instruction that
/// follows its definition.
pub struct LabelTable {
    map: StringHashMap<u16>,
}

impl View for LabelTable {
    type V = Map<Seq<char>, u16>;

    closed spec fn view(&self) -> Map<Seq<char>, u16> {
        self.map@
    }
}

/// The index that `labels` records for `name`, if it holds the name.
pub open spec fn spec_lookup(labels: Map<Seq<char>, u16>, name: Seq<char>) -> Option<u16> {
    if labels.contains_key(name) {
        Some(labels[name])
    } else {
        None
    }
}

impl LabelTable {
    /// The table without any label.
    pub fn new() -> (table: Self)
        ensures
            table@ == Map::<Seq<char>, u16>::empty(),
    {
        LabelTable { map: StringHashMap::new() }
    }

    /// Records that `name` stands for instruction `index`. A label that is
    /// defined again stands for the later index from then on.
    pub fn insert(&mut self, name: String, index: u16)
        ensures
            final(self)@ == old(self)@.insert(name@, index),
    {
        self.map.insert(name, index);
    }

    /// The index that `name` stands for. The name is looked up as it is
    /// written, character by character.
    pub fn get(&self, name: &str) -> (index: Option<u16>)
        ensures
            index == spec_lookup(self@, name@),
    {
        match self.map.get(name) {
            Some(index) => Some(*index),
            None => None,
        }
    }

    /// Whether `name` has been defined.
    pub fn contains_key(&self, name: &str) -> (known: bool)
        ensures
            known == self@.contains_key(name@),
    {
        self.map.contains_key(name)
    }
}

/// A definition is seen by every later lookup of its name, and changes the
/// lookup of no other name.
pub proof fn lemma_insert_then_lookup(
    labels: Map<Seq<char>, u16>,
    name: Seq<char>,
    index: u16,
    other: Seq<char>,
)
    ensures
        spec_lookup(labels.insert(name, index), name) == Some(index),
        other != name ==> spec_lookup(labels.insert(name, index), other) == spec_lookup(
            labels,
            other,
        ),
{
}

} // verus!
