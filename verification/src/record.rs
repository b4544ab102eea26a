//! A directory entry as returned by a search: attribute names mapped to their
//! ordered values.

use vstd::hash_map::StringHashMap;
use vstd::prelude::*;

verus! {

/// The values of one attribute, as sequences of characters.
pub type Values = Seq<Seq<char>>;

/// What a record is, mathematically: a finite map from attribute names to
/// the ordered values stored under each name.
pub type RecordView = Map<Seq<char>, Values>;

/// One directory entry. An attribute name maps to the values the directory
/// holds for it, in the order the directory returned them.
pub struct RawRecord {
    attrs: StringHashMap<Vec<String>>,
}

impl View for RawRecord {
    type V = RecordView;

    closed spec fn view(&self) -> RecordView {
        self.attrs@.map_values(|values: Vec<String>| values.deep_view())
    }
}

impl DeepView for RawRecord {
    type V = RecordView;

    open spec fn deep_view(&self) -> RecordView {
        self@
    }
}

impl RawRecord {
    /// A record without any attribute.
    pub fn new() -> (record: Self)
        ensures
            record@ == Map::<Seq<char>, Values>::empty(),
    {
        let record = RawRecord { attrs: StringHashMap::new() };
        assert(record@ =~= Map::<Seq<char>, Values>::empty());
        record
    }

    /// Stores `values` under `name`, replacing what was stored there.
    pub fn insert(&mut self, name: String, values: Vec<String>)
        ensures
            final(self)@ == old(self)@.insert(name@, values.deep_view()),
    {
        self.attrs.insert(name, values);
        assert(self@ =~= old(self)@.insert(name@, values.deep_view()));
    }

    /// The values stored under `name`, if the record has that attribute.
    pub fn get(&self, name: &str) -> (found: Option<&Vec<String>>)
        ensures
            match found {
                Some(values) => self@.contains_key(name@) && values.deep_view() == self@[name@],
                None => !self@.contains_key(name@),
            },
    {
        self.attrs.get(name)
    }

    /// Whether the record has an attribute called `name`.
    pub fn contains_key(&self, name: &str) -> (present: bool)
        ensures
            present == self@.contains_key(name@),
    {
        self.attrs.contains_key(name)
    }
}

} // verus!
