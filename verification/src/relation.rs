//! The two building blocks of the index: a relation between identifier
//! strings, and a map from an identifier string to one identifier.

use crate::identifiers::Id;
use crate::keyed::KeyedStore;
use vstd::hash_map::StringHashMap;
use vstd::hash_set::StringHashSet;
use vstd::prelude::*;

verus! {

/// A many-to-many relation between strings. Its view is the set of linked
/// pairs, left string first.
pub struct Relation {
    members: KeyedStore<StringHashSet>,
}

impl View for Relation {
    type V = Set<(Seq<char>, Seq<char>)>;

    closed spec fn view(&self) -> Set<(Seq<char>, Seq<char>)> {
        Set::new(
            |pair: (Seq<char>, Seq<char>)|
                self.members@.contains_key(pair.0) && self.members@[pair.0]@.contains(pair.1),
        )
    }
}

impl Relation {
    /// Holds of every relation that this module hands out.
    pub closed spec fn wf(&self) -> bool {
        self.members.wf()
    }

    /// The relation without any pair.
    pub fn new() -> (relation: Self)
        ensures
            relation.wf(),
            relation@ == Set::<(Seq<char>, Seq<char>)>::empty(),
    {
        let relation = Relation { members: KeyedStore::new() };
        assert(relation@ =~= Set::<(Seq<char>, Seq<char>)>::empty());
        relation
    }

    /// Whether `left` is linked to `right`.
    pub fn contains(&self, left: &str, right: &str) -> (linked: bool)
        requires
            self.wf(),
        ensures
            linked == self@.contains((left@, right@)),
    {
        match self.members.get(left) {
            Some(set) => set.contains(right),
            None => false,
        }
    }

    /// Links `left` to `right`. A pair that is already there stays, and no
    /// other pair comes or goes.
    pub fn link(&mut self, left: &str, right: &str)
        requires
            old(self).wf(),
        ensures
            final(self).wf(),
            final(self)@ == old(self)@.insert((left@, right@)),
    {
        match self.members.get_mut(left) {
            Some(set) => {
                set.insert(right.to_owned());
            },
            None => {
                let mut set = StringHashSet::new();
                set.insert(right.to_owned());
                self.members.insert(left, set);
            },
        }
        assert(self@ =~= old(self)@.insert((left@, right@)));
    }

    /// Drops every pair.
    pub fn clear(&mut self)
        requires
            old(self).wf(),
        ensures
            final(self).wf(),
            final(self)@ == Set::<(Seq<char>, Seq<char>)>::empty(),
    {
        self.members.clear();
        assert(self@ =~= Set::<(Seq<char>, Seq<char>)>::empty());
    }
}

/// A map from a string to one identifier of kind `K`. Its view maps the
/// string to the identifier's string.
#[verifier::reject_recursive_types(K)]
pub struct IdMap<K> {
    entries: StringHashMap<Id<K>>,
}

impl<K> View for IdMap<K> {
    type V = Map<Seq<char>, Seq<char>>;

    closed spec fn view(&self) -> Map<Seq<char>, Seq<char>> {
        Map::new(
            |k: Seq<char>| self.entries@.contains_key(k),
            |k: Seq<char>| self.entries@[k]@,
        )
    }
}

impl<K> IdMap<K> {
    /// The map without any key.
    pub fn new() -> (map: Self)
        ensures
            map@ == Map::<Seq<char>, Seq<char>>::empty(),
    {
        let map = IdMap { entries: StringHashMap::new() };
        assert(map@ =~= Map::<Seq<char>, Seq<char>>::empty());
        map
    }

    /// The identifier that `key` maps to, if any.
    pub fn get(&self, key: &str) -> (value: Option<&Id<K>>)
        ensures
            match value {
                Some(id) => self@.contains_key(key@) && id@ == self@[key@],
                None => !self@.contains_key(key@),
            },
    {
        self.entries.get(key)
    }

    /// Maps `key` to `value`, whatever it mapped to before.
    pub fn set(&mut self, key: &str, value: Id<K>)
        ensures
            final(self)@ == old(self)@.insert(key@, value@),
    {
        self.entries.insert(key.to_owned(), value);
        assert(self@ =~= old(self)@.insert(key@, value@));
    }

    /// Maps `key` to `value` unless `key` is mapped already: what was set
    /// first stays.
    pub fn set_once(&mut self, key: &str, value: Id<K>)
        ensures
            final(self)@ == if old(self)@.contains_key(key@) {
                old(self)@
            } else {
                old(self)@.insert(key@, value@)
            },
    {
        if !self.entries.contains_key(key) {
            self.entries.insert(key.to_owned(), value);
            assert(self@ =~= old(self)@.insert(key@, value@));
        }
    }

    /// Drops every key.
    pub fn clear(&mut self)
        ensures
            final(self)@ == Map::<Seq<char>, Seq<char>>::empty(),
    {
        self.entries.clear();
        assert(self@ =~= Map::<Seq<char>, Seq<char>>::empty());
    }
}

} // verus!
