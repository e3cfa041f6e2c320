//! The general store: byte blobs under string keys, for any user of the
//! cache. The last write to a key wins.

use crate::index_model::Name;
use crate::persistence::{install, load_result, map_of_entries, Loaded, PersistenceError};
use crate::validation::{valid_string, validate_key, validate_value, ValidationError};
use vstd::hash_map::StringHashMap;
use vstd::prelude::*;

verus! {

/// The verdict on a write: the key is tested first, then the value.
pub open spec fn put_verdict(key: Name, value: Seq<u8>) -> Result<(), ValidationError> {
    if !valid_string(key) {
        Err(ValidationError::InvalidKey)
    } else if value.len() == 0 {
        Err(ValidationError::EmptyValue)
    } else {
        Ok(())
    }
}

/// What the store holds after a write: the value under the key where the
/// write is accepted, and what it held before where it is rejected.
pub open spec fn after_put(store: Map<Name, Seq<u8>>, key: Name, value: Seq<u8>) -> Map<
    Name,
    Seq<u8>,
> {
    if put_verdict(key, value) is Ok {
        store.insert(key, value)
    } else {
        store
    }
}

/// What a read gives: an error for an invalid key, else the bytes under the
/// key, or nothing where the key is unknown.
pub open spec fn lookup(store: Map<Name, Seq<u8>>, key: Name) -> Result<
    Option<Seq<u8>>,
    ValidationError,
> {
    if !valid_string(key) {
        Err(ValidationError::InvalidKey)
    } else if store.contains_key(key) {
        Ok(Some(store[key]))
    } else {
        Ok(None)
    }
}

/// The bytes that the answer to a read refers to.
pub open spec fn found(answer: Result<Option<&Vec<u8>>, ValidationError>) -> Result<
    Option<Seq<u8>>,
    ValidationError,
> {
    match answer {
        Ok(Some(value)) => Ok(Some(value@)),
        Ok(None) => Ok(None),
        Err(error) => Err(error),
    }
}

/// The byte sequences of a map of blobs.
pub open spec fn blob_views(blobs: Map<Name, Vec<u8>>) -> Map<Name, Seq<u8>> {
    Map::new(|k: Name| blobs.contains_key(k), |k: Name| blobs[k]@)
}

/// What the general store holds after a load: nothing where no backend is
/// configured, the loaded blobs in place of all it held where the load
/// succeeded, and what it held before where the load failed.
pub open spec fn hydrated_blobs(before: Map<Name, Seq<u8>>, loaded: Loaded<Vec<u8>>) -> Map<
    Name,
    Seq<u8>,
> {
    match loaded {
        Loaded::NoBackend => Map::empty(),
        Loaded::Entries(entries) => blob_views(map_of_entries(entries@)),
        Loaded::Failed(_) => before,
    }
}

/// The general store. Its view maps each key to the bytes last written
/// under it.
pub struct ScratchStore {
    entries: StringHashMap<Vec<u8>>,
}

impl View for ScratchStore {
    type V = Map<Name, Seq<u8>>;

    closed spec fn view(&self) -> Map<Name, Seq<u8>> {
        blob_views(self.entries@)
    }
}

impl ScratchStore {
    /// The store without any key.
    pub fn new() -> (store: Self)
        ensures
            store@ == Map::<Name, Seq<u8>>::empty(),
    {
        let store = ScratchStore { entries: StringHashMap::new() };
        assert(store@ =~= Map::<Name, Seq<u8>>::empty());
        store
    }

    /// Writes `value` under `key`, in place of what the key held. An
    /// invalid key or an empty value is rejected, and then nothing changes.
    pub fn put(&mut self, key: &str, value: Vec<u8>) -> (r: Result<(), ValidationError>)
        ensures
            r == put_verdict(key@, value@),
            final(self)@ == after_put(old(self)@, key@, value@),
    {
        match validate_key(key) {
            Ok(()) => {},
            Err(e) => {
                return Err(e);
            },
        }
        match validate_value(&value) {
            Ok(()) => {},
            Err(e) => {
                return Err(e);
            },
        }
        self.entries.insert(key.to_owned(), value);
        assert(self@ =~= old(self)@.insert(key@, value@));
        Ok(())
    }

    /// The bytes last written under `key`, or nothing where the key is
    /// unknown. Only an invalid key is an error.
    pub fn get(&self, key: &str) -> (r: Result<Option<&Vec<u8>>, ValidationError>)
        ensures
            found(r) == lookup(self@, key@),
    {
        match validate_key(key) {
            Ok(()) => Ok(self.entries.get(key)),
            Err(e) => Err(e),
        }
    }

    /// The number of keys.
    pub fn len(&self) -> (len: usize)
        ensures
            len == self@.len(),
    {
        assert(self@.dom() =~= self.entries@.dom());
        self.entries.len()
    }

    /// Takes what a load of the general category brought.
    pub fn hydrate(&mut self, loaded: Loaded<Vec<u8>>) -> (r: Result<(), PersistenceError>)
        ensures
            r == load_result(loaded),
            final(self)@ == hydrated_blobs(old(self)@, loaded),
    {
        install(&mut self.entries, loaded)
    }

    /// Drops every key.
    pub fn clear(&mut self)
        ensures
            final(self)@ == Map::<Name, Seq<u8>>::empty(),
    {
        self.entries.clear();
        assert(self@ =~= Map::<Name, Seq<u8>>::empty());
    }
}

/// A write that is accepted is read back as it was written, whatever the key
/// held before.
pub proof fn lemma_put_then_get(store: Map<Name, Seq<u8>>, key: Name, value: Seq<u8>)
    requires
        put_verdict(key, value) is Ok,
    ensures
        lookup(after_put(store, key, value), key) == Ok::<Option<Seq<u8>>, ValidationError>(
            Some(value),
        ),
{
}

/// A write with an invalid key or an empty value is rejected and changes
/// nothing: every key reads as it did before.
pub proof fn lemma_rejected_put_changes_nothing(
    store: Map<Name, Seq<u8>>,
    key: Name,
    value: Seq<u8>,
)
    requires
        !valid_string(key) || value.len() == 0,
    ensures
        put_verdict(key, value) is Err,
        after_put(store, key, value) == store,
{
}

/// An unknown key is read as nothing, not as an error.
pub proof fn lemma_get_unknown(store: Map<Name, Seq<u8>>, key: Name)
    requires
        valid_string(key),
        !store.contains_key(key),
    ensures
        lookup(store, key) == Ok::<Option<Seq<u8>>, ValidationError>(None),
{
}

} // verus!
