//! A bounded first-in, first-out series: the newest items up to a capacity.

use crate::keyed::KeyedStore;
use std::collections::VecDeque;
use vstd::prelude::*;

verus! {

/// The last `capacity` items of `items`, or all of them where there are fewer.
pub open spec fn keep_last<T>(items: Seq<T>, capacity: nat) -> Seq<T> {
    if items.len() <= capacity {
        items
    } else {
        items.subrange(items.len() - capacity, items.len() as int)
    }
}

/// What a series of the given capacity holds after the items of `inserted`
/// were pushed onto `start` one by one, oldest first.
pub open spec fn after_inserts<T>(start: Seq<T>, inserted: Seq<T>, capacity: nat) -> Seq<T>
    decreases inserted.len(),
{
    if inserted.len() == 0 {
        start
    } else {
        keep_last(
            after_inserts(start, inserted.drop_last(), capacity).push(inserted.last()),
            capacity,
        )
    }
}

/// A series that keeps the newest items, at most `capacity` of them, oldest
/// first. Its view is the sequence of the items kept.
pub struct Series<T> {
    items: VecDeque<T>,
    capacity: usize,
}

impl<T> View for Series<T> {
    type V = Seq<T>;

    closed spec fn view(&self) -> Seq<T> {
        self.items@
    }
}

impl<T> Series<T> {
    /// The ceiling that the series was made with.
    pub closed spec fn spec_capacity(&self) -> usize {
        self.capacity
    }

    /// The series never holds more than its capacity.
    pub closed spec fn wf(&self) -> bool {
        self.items@.len() <= self.capacity
    }

    /// A well-formed series is within its capacity.
    pub proof fn lemma_within_capacity(self)
        requires
            self.wf(),
        ensures
            self@.len() <= self.spec_capacity(),
    {
    }

    /// The empty series of the given capacity.
    pub fn new(capacity: usize) -> (series: Self)
        ensures
            series.wf(),
            series@ == Seq::<T>::empty(),
            series.spec_capacity() == capacity,
    {
        Series { items: VecDeque::new(), capacity }
    }

    /// The ceiling that the series was made with.
    #[verifier::when_used_as_spec(spec_capacity)]
    pub fn capacity(&self) -> (capacity: usize)
        ensures
            capacity == self.spec_capacity(),
    {
        self.capacity
    }

    /// The number of items kept.
    pub fn len(&self) -> (len: usize)
        ensures
            len == self@.len(),
    {
        self.items.len()
    }

    /// Whether the series holds no item.
    pub fn is_empty(&self) -> (empty: bool)
        ensures
            empty == (self@.len() == 0),
    {
        self.items.len() == 0
    }

    /// The item at `index`, counted from the oldest, if there is one.
    pub fn get(&self, index: usize) -> (item: Option<&T>)
        ensures
            index < self@.len() ==> item == Some(&self@[index as int]),
            index >= self@.len() ==> item.is_none(),
    {
        if index < self.items.len() {
            Some(&self.items[index])
        } else {
            None
        }
    }

    /// The newest item, if there is one.
    pub fn latest(&self) -> (item: Option<&T>)
        ensures
            self@.len() > 0 ==> item == Some(&self@.last()),
            self@.len() == 0 ==> item.is_none(),
    {
        let len = self.items.len();
        if len > 0 {
            Some(&self.items[len - 1])
        } else {
            None
        }
    }

    /// Appends `item`. Where the series is full, the oldest item leaves
    /// first, so that the capacity is never exceeded; a series of capacity
    /// zero keeps nothing.
    pub fn push(&mut self, item: T)
        requires
            old(self).wf(),
        ensures
            final(self).wf(),
            final(self).spec_capacity() == old(self).spec_capacity(),
            final(self)@ == keep_last(old(self)@.push(item), old(self).spec_capacity() as nat),
    {
        if self.capacity == 0 {
            return ;
        }
        if self.items.len() == self.capacity {
            self.items.pop_front();
        }
        self.items.push_back(item);
    }

    /// Drops every item. The capacity stays.
    pub fn clear(&mut self)
        ensures
            final(self).wf(),
            final(self).spec_capacity() == old(self).spec_capacity(),
            final(self)@ == Seq::<T>::empty(),
    {
        self.items.clear();
    }
}

/// Pushing onto a series that was cut to its capacity gives what pushing onto
/// the uncut sequence and cutting once gives.
pub proof fn lemma_keep_last_push<T>(items: Seq<T>, item: T, capacity: nat)
    ensures
        keep_last(keep_last(items, capacity).push(item), capacity) == keep_last(
            items.push(item),
            capacity,
        ),
{
    assert(keep_last(keep_last(items, capacity).push(item), capacity) =~= keep_last(
        items.push(item),
        capacity,
    ));
}

/// After any number of inserts into an empty series of capacity `capacity`,
/// the series holds the last `min(n, capacity)` of the `n` inserted items, in
/// the order of insertion.
pub proof fn lemma_inserts_keep_newest<T>(inserted: Seq<T>, capacity: nat)
    ensures
        after_inserts(Seq::<T>::empty(), inserted, capacity) == keep_last(inserted, capacity),
        after_inserts(Seq::<T>::empty(), inserted, capacity).len() == if inserted.len()
            <= capacity {
            inserted.len()
        } else {
            capacity
        },
    decreases inserted.len(),
{
    if inserted.len() > 0 {
        lemma_inserts_keep_newest(inserted.drop_last(), capacity);
        lemma_keep_last_push(inserted.drop_last(), inserted.last(), capacity);
        assert(inserted.drop_last().push(inserted.last()) =~= inserted);
    }
}

/// The series that `map` holds under `key`: the empty one where the key is
/// absent.
pub open spec fn series_of<T>(map: Map<Seq<char>, Seq<T>>, key: Seq<char>) -> Seq<T> {
    if map.contains_key(key) {
        map[key]
    } else {
        Seq::empty()
    }
}

/// `map` after `item` was appended under `key` with the given capacity.
pub open spec fn appended<T>(map: Map<Seq<char>, Seq<T>>, key: Seq<char>, item: T, capacity: nat)
    -> Map<Seq<char>, Seq<T>> {
    map.insert(key, keep_last(series_of(map, key).push(item), capacity))
}

/// One bounded series per key, all of one capacity. Its view maps each key
/// to the items kept under it, oldest first.
pub struct SeriesStore<T> {
    capacity: usize,
    series: KeyedStore<Series<T>>,
}

impl<T> View for SeriesStore<T> {
    type V = Map<Seq<char>, Seq<T>>;

    closed spec fn view(&self) -> Map<Seq<char>, Seq<T>> {
        Map::new(|k: Seq<char>| self.series@.contains_key(k), |k: Seq<char>| self.series@[k]@)
    }
}

impl<T> SeriesStore<T> {
    /// The ceiling of every series of the store.
    pub closed spec fn spec_capacity(&self) -> usize {
        self.capacity
    }

    /// Every series is well formed and has the store's capacity.
    pub closed spec fn wf(&self) -> bool {
        &&& self.series.wf()
        &&& forall|k: Seq<char>| #[trigger]
            self.series@.contains_key(k) ==> self.series@[k].wf() && self.series@[k].spec_capacity()
                == self.capacity
    }

    /// No series of a well-formed store is longer than the capacity.
    pub proof fn lemma_within_capacity(self, key: Seq<char>)
        requires
            self.wf(),
        ensures
            series_of(self@, key).len() <= self.spec_capacity(),
    {
        if self.series@.contains_key(key) {
            self.series@[key].lemma_within_capacity();
        }
    }

    /// The store without any key.
    pub fn new(capacity: usize) -> (store: Self)
        ensures
            store.wf(),
            store@ == Map::<Seq<char>, Seq<T>>::empty(),
            store.spec_capacity() == capacity,
    {
        let store = SeriesStore { capacity, series: KeyedStore::new() };
        assert(store@ =~= Map::<Seq<char>, Seq<T>>::empty());
        store
    }

    /// The series kept under `key`, if the key is known.
    pub fn get(&self, key: &str) -> (series: Option<&Series<T>>)
        requires
            self.wf(),
        ensures
            match series {
                Some(s) => self@.contains_key(key@) && s@ == self@[key@] && s.wf(),
                None => !self@.contains_key(key@),
            },
    {
        self.series.get(key)
    }

    /// Appends `item` to the series of `key`. Where that series is full, its
    /// oldest item leaves first. No other key is touched.
    pub fn push(&mut self, key: &str, item: T)
        requires
            old(self).wf(),
        ensures
            final(self).wf(),
            final(self).spec_capacity() == old(self).spec_capacity(),
            final(self)@ == appended(old(self)@, key@, item, old(self).spec_capacity() as nat),
    {
        match self.series.get_mut(key) {
            Some(series) => {
                series.push(item);
            },
            None => {
                let mut series = Series::new(self.capacity);
                series.push(item);
                self.series.insert(key, series);
            },
        }
        assert(self@ =~= appended(old(self)@, key@, item, old(self).spec_capacity() as nat));
    }

    /// Drops every key. The capacity stays.
    pub fn clear(&mut self)
        requires
            old(self).wf(),
        ensures
            final(self).wf(),
            final(self).spec_capacity() == old(self).spec_capacity(),
            final(self)@ == Map::<Seq<char>, Seq<T>>::empty(),
    {
        self.series.clear();
        assert(self@ =~= Map::<Seq<char>, Seq<T>>::empty());
    }
}

} // verus!
