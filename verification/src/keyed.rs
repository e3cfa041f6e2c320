//! A map from string keys to values that can be changed in place.

use vstd::hash_map::StringHashMap;
use vstd::prelude::*;

verus! {

/// A map keyed by strings whose values live in slots, so that one value can
/// be changed where it stands. Its view is the map from each key to the value
/// in the key's slot.
pub struct KeyedStore<V> {
    slot_of: StringHashMap<usize>,
    slots: Vec<V>,
}

impl<V> View for KeyedStore<V> {
    type V = Map<Seq<char>, V>;

    closed spec fn view(&self) -> Map<Seq<char>, V> {
        Map::new(
            |k: Seq<char>| self.slot_of@.contains_key(k),
            |k: Seq<char>| self.slots@[self.slot_of@[k] as int],
        )
    }
}

impl<V> KeyedStore<V> {
    /// Every key points at a slot of its own. Every store that this module
    /// hands out is well formed, and every method keeps it so.
    pub closed spec fn wf(&self) -> bool {
        &&& forall|k: Seq<char>| #[trigger]
            self.slot_of@.contains_key(k) ==> self.slot_of@[k] < self.slots@.len()
        &&& forall|j: Seq<char>, k: Seq<char>|
            self.slot_of@.contains_key(j) && self.slot_of@.contains_key(k) && j != k
                ==> #[trigger] self.slot_of@[j] != #[trigger] self.slot_of@[k]
    }

    /// The store without any key.
    pub fn new() -> (store: Self)
        ensures
            store.wf(),
            store@ == Map::<Seq<char>, V>::empty(),
    {
        let store = KeyedStore { slot_of: StringHashMap::new(), slots: Vec::new() };
        assert(store@ =~= Map::<Seq<char>, V>::empty());
        store
    }

    /// Whether `key` has a value.
    pub fn contains_key(&self, key: &str) -> (found: bool)
        ensures
            found == self@.contains_key(key@),
    {
        self.slot_of.contains_key(key)
    }

    /// The value of `key`, if it has one.
    pub fn get(&self, key: &str) -> (value: Option<&V>)
        requires
            self.wf(),
        ensures
            match value {
                Some(v) => self@.contains_key(key@) && *v == self@[key@],
                None => !self@.contains_key(key@),
            },
    {
        match self.slot_of.get(key) {
            Some(slot) => Some(&self.slots[*slot]),
            None => None,
        }
    }

    /// The value of `key` for changing in place, if it has one. No other key
    /// is touched by what the caller does to it.
    pub fn get_mut(&mut self, key: &str) -> (value: Option<&mut V>)
        requires
            old(self).wf(),
        ensures
            final(self).wf(),
            match value {
                Some(v) => {
                    &&& old(self)@.contains_key(key@)
                    &&& *v == old(self)@[key@]
                    &&& final(self)@ == old(self)@.insert(key@, *final(v))
                },
                None => !old(self)@.contains_key(key@) && final(self)@ == old(self)@,
            },
    {
        match self.slot_of.get(key) {
            Some(slot) => {
                let slot: usize = *slot;
                Some(&mut self.slots[slot])
            },
            None => None,
        }
    }

    /// Sets the value of `key`, replacing the one it had.
    pub fn insert(&mut self, key: &str, value: V)
        requires
            old(self).wf(),
        ensures
            final(self).wf(),
            final(self)@ == old(self)@.insert(key@, value),
    {
        match self.slot_of.get(key) {
            Some(slot) => {
                let slot: usize = *slot;
                self.slots[slot] = value;
                assert(self@ =~= old(self)@.insert(key@, value));
            },
            None => {
                let slot: usize = self.slots.len();
                self.slots.push(value);
                self.slot_of.insert(key.to_owned(), slot);
                assert(self@ =~= old(self)@.insert(key@, value));
            },
        }
    }

    /// Drops every key.
    pub fn clear(&mut self)
        ensures
            final(self).wf(),
            final(self)@ == Map::<Seq<char>, V>::empty(),
    {
        self.slot_of.clear();
        self.slots.clear();
        assert(self@ =~= Map::<Seq<char>, V>::empty());
    }
}

} // verus!
