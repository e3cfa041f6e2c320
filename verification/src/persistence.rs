//! What a persistence backend hands to the cache. The cache never calls a
//! backend: whoever owns the backend loads, and passes on what came back.

use crate::index_model::Name;
use vstd::hash_map::StringHashMap;
use vstd::prelude::*;

verus! {

/// How a backend failed.
#[derive(Clone, Copy, Debug, PartialEq, Eq, Structural)]
pub enum PersistenceErrorKind {
    /// The backend could not be reached.
    Unreachable,
    /// The backend returned data that could not be read.
    MalformedData,
    /// The backend did not take a write.
    WriteFailed,
}

/// A failure of the backend, with the backend's own words.
#[derive(Debug)]
pub struct PersistenceError {
    pub kind: PersistenceErrorKind,
    pub message: String,
}

/// The answer to one load of a keyed category.
pub enum Loaded<T> {
    /// No backend is configured.
    NoBackend,
    /// The backend returned these entries, each a key with its value.
    Entries(Vec<(String, T)>),
    /// The backend failed.
    Failed(PersistenceError),
}

/// The map that a list of entries stands for. Where a key occurs more than
/// once, its first entry counts.
pub open spec fn map_of_entries<T>(entries: Seq<(String, T)>) -> Map<Name, T>
    decreases entries.len(),
{
    if entries.len() == 0 {
        Map::empty()
    } else {
        map_of_entries(entries.drop_first()).insert(entries[0].0@, entries[0].1)
    }
}

/// What a category holds after a load: nothing where no backend is
/// configured, the loaded entries in place of all it held where the load
/// succeeded, and what it held before where the load failed.
pub open spec fn hydrated<T>(before: Map<Name, T>, loaded: Loaded<T>) -> Map<Name, T> {
    match loaded {
        Loaded::NoBackend => Map::empty(),
        Loaded::Entries(entries) => map_of_entries(entries@),
        Loaded::Failed(_) => before,
    }
}

/// What a load reports: the backend's failure, or success.
pub open spec fn load_result<T>(loaded: Loaded<T>) -> Result<(), PersistenceError> {
    match loaded {
        Loaded::Failed(error) => Err(error),
        _ => Ok(()),
    }
}

/// Builds the map that `entries` stands for.
pub fn collect_entries<T>(entries: Vec<(String, T)>) -> (map: StringHashMap<T>)
    ensures
        map@ == map_of_entries(entries@),
{
    let ghost all = entries@;
    let mut entries = entries;
    let mut map: StringHashMap<T> = StringHashMap::new();
    while entries.len() > 0
        invariant
            entries@.len() <= all.len(),
            entries@ == all.subrange(0, entries@.len() as int),
            map@ == map_of_entries(all.subrange(entries@.len() as int, all.len() as int)),
        decreases entries@.len(),
    {
        let ghost rest = all.subrange(entries@.len() as int, all.len() as int);
        let ghost at = entries@.len() - 1;
        if let Some((key, value)) = entries.pop() {
            proof {
                let suffix = all.subrange(at, all.len() as int);
                assert(suffix.drop_first() =~= rest);
                assert(suffix[0] == (key, value));
                assert(entries@ =~= all.subrange(0, at));
            }
            map.insert(key, value);
        }
    }
    proof {
        assert(all.subrange(0, all.len() as int) =~= all);
    }
    map
}

/// Replaces what `target` holds by what the load brought, or leaves it as it
/// is where the load failed, and reports the failure.
pub fn install<T>(target: &mut StringHashMap<T>, loaded: Loaded<T>) -> (r: Result<
    (),
    PersistenceError,
>)
    ensures
        r == load_result(loaded),
        final(target)@ == hydrated(old(target)@, loaded),
{
    match loaded {
        Loaded::NoBackend => {
            target.clear();
            Ok(())
        },
        Loaded::Entries(entries) => {
            *target = collect_entries(entries);
            Ok(())
        },
        Loaded::Failed(error) => Err(error),
    }
}

} // verus!
