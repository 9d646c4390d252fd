//! A table by text.

use vstd::hash_map::StringHashMap;
use vstd::prelude::*;

verus! {

/// A table by text; a later entry overrides an earlier one of the same key.
#[verifier::reject_recursive_types(T)]
pub struct Lookup<T> {
    pub entries: StringHashMap<T>,
}

/// The models of the values of a table.
pub open spec fn entries_view<T: DeepView>(entries: Map<Seq<char>, T>) -> Map<Seq<char>, T::V> {
    entries.map_values(|value: T| value.deep_view())
}

impl<T: DeepView> View for Lookup<T> {
    type V = Map<Seq<char>, T::V>;

    open spec fn view(&self) -> Map<Seq<char>, T::V> {
        entries_view(self.entries@)
    }
}

impl<T: DeepView> Lookup<T> {
    /// An empty table.
    pub fn new() -> (r: Self)
        ensures
            r@ == Map::<Seq<char>, T::V>::empty(),
    {
        let r = Lookup { entries: StringHashMap::new() };
        assert(r@ =~= Map::<Seq<char>, T::V>::empty());
        r
    }

    /// Sets what stands for `key`.
    pub fn insert(&mut self, key: &str, value: T)
        ensures
            final(self)@ == old(self)@.insert(key@, value.deep_view()),
    {
        self.entries.insert(key.to_owned(), value);
        assert(self@ =~= old(self)@.insert(key@, value.deep_view()));
    }

    /// What stands for `key`.
    pub fn get(&self, key: &str) -> (r: Option<&T>)
        ensures
            match r {
                Some(value) => self@.dom().contains(key@) && self@[key@] == value.deep_view(),
                None => !self@.dom().contains(key@),
            },
    {
        self.entries.get(key)
    }
}

} // verus!
