//! A keyed store in which a key is written at most once.

use crate::error::HashMapStateError;
use std::collections::HashMap;
use std::fmt::Debug;
use std::hash::Hash;
use vstd::prelude::*;
use vstd::std_specs::hash::*;

verus! {

broadcast use vstd::std_specs::hash::group_hash_axioms;

/// What adding `value` under `key` makes of a store that holds `entries`,
/// and what it answers. A store that cannot be reached answers
/// `CouldNotAcquireMap`. A key that is present keeps its value, the new value
/// is dropped and the answer is `KeyAlreadyPresent` with that key. Else the
/// entry is added.
pub open spec fn entry_added<U: Eq + Hash, T>(
    entries: Map<U, T>,
    available: bool,
    key: U,
    value: T,
) -> (Map<U, T>, Result<(), HashMapStateError<U>>) {
    if !available {
        (entries, Err(HashMapStateError::CouldNotAcquireMap))
    } else if entries.contains_key(key) {
        (entries, Err(HashMapStateError::KeyAlreadyPresent(key)))
    } else {
        (entries.insert(key, value), Ok(()))
    }
}

/// What removing `key` makes of a store that holds `entries`, and what it
/// answers. A store that cannot be reached answers `CouldNotAcquireMap`. A
/// key that is absent leaves the store as it is, with the answer
/// `KeyNotPresent`. Else the entry leaves the store and is handed out.
pub open spec fn entry_removed<U: Eq + Hash, T>(entries: Map<U, T>, available: bool, key: U) -> (
    Map<U, T>,
    Result<(U, T), HashMapStateError<U>>,
) {
    if !available {
        (entries, Err(HashMapStateError::CouldNotAcquireMap))
    } else if entries.contains_key(key) {
        (entries.remove(key), Ok((key, entries[key])))
    } else {
        (entries, Err(HashMapStateError::KeyNotPresent))
    }
}

/// The entries of a reachable store that held `entries` after `values[i]`
/// was added under `keys[i]`, for each `i` in turn.
pub open spec fn entries_after<U: Eq + Hash, T>(
    entries: Map<U, T>,
    keys: Seq<U>,
    values: Seq<T>,
) -> Map<U, T>
    decreases keys.len(),
{
    if keys.len() == 0 || values.len() != keys.len() {
        entries
    } else {
        entry_added(
            entries_after(entries, keys.drop_last(), values.drop_last()),
            true,
            keys.last(),
            values.last(),
        ).0
    }
}

/// Adds under distinct keys, made to an empty store, leave exactly those
/// keys in it, each with the value it was added with.
proof fn lemma_entries_after_distinct<U: Eq + Hash, T>(keys: Seq<U>, values: Seq<T>)
    requires
        keys.len() == values.len(),
        keys.no_duplicates(),
    ensures
        entries_after(Map::<U, T>::empty(), keys, values).dom() == keys.to_set(),
        entries_after(Map::<U, T>::empty(), keys, values).dom().finite(),
        entries_after(Map::<U, T>::empty(), keys, values).len() == keys.len(),
        forall|i: int|
            0 <= i < keys.len() ==> entries_after(Map::<U, T>::empty(), keys, values)[#[trigger] keys[i]]
                == values[i],
    decreases keys.len(),
{
    if keys.len() > 0 {
        let stored = entries_after(Map::<U, T>::empty(), keys, values);
        let front = keys.drop_last();
        let before = entries_after(Map::<U, T>::empty(), front, values.drop_last());
        lemma_entries_after_distinct(front, values.drop_last());
        assert(!before.contains_key(keys.last())) by {
            if front.to_set().contains(keys.last()) {
                let j = choose|j: int| 0 <= j < front.len() && front[j] == keys.last();
                assert(keys[j] == keys.last());
            }
        }
        assert(stored.dom() =~= keys.to_set()) by {
            assert forall|k: U| stored.dom().contains(k) <==> keys.to_set().contains(k) by {
                if keys.to_set().contains(k) {
                    let j = choose|j: int| 0 <= j < keys.len() && keys[j] == k;
                    if j < front.len() {
                        assert(front[j] == k);
                    }
                }
                if before.dom().contains(k) {
                    let j = choose|j: int| 0 <= j < front.len() && front[j] == k;
                    assert(keys[j] == k);
                }
            }
        }
        assert forall|i: int| 0 <= i < keys.len() implies stored[#[trigger] keys[i]]
            == values[i] by {
            if i < front.len() {
                assert(before[front[i]] == values.drop_last()[i]);
            }
        }
    }
}

/// Adds to an empty store under keys that are all distinct succeed one and
/// all, and leave one entry for each: the store then holds as many entries
/// as there were adds, under exactly those keys. Each entry can be removed
/// once, which hands out the key and the value it was added with, and a
/// second removal of it answers `KeyNotPresent`.
pub proof fn lemma_distinct_keys_fill_store<U: Eq + Hash, T>(keys: Seq<U>, values: Seq<T>)
    requires
        keys.len() == values.len(),
        keys.no_duplicates(),
    ensures
        entries_after(Map::<U, T>::empty(), keys, values).dom().finite(),
        entries_after(Map::<U, T>::empty(), keys, values).len() == keys.len(),
        entries_after(Map::<U, T>::empty(), keys, values).dom() == keys.to_set(),
        forall|i: int|
            #![trigger keys[i]]
            0 <= i < keys.len() ==> {
                let stored = entries_after(Map::<U, T>::empty(), keys, values);
                let before = entries_after(Map::<U, T>::empty(), keys.take(i), values.take(i));
                let once = entry_removed(stored, true, keys[i]);
                &&& entry_added(before, true, keys[i], values[i]).1 is Ok
                &&& once.1 == Ok::<(U, T), HashMapStateError<U>>((keys[i], values[i]))
                &&& once.0.len() == keys.len() - 1
                &&& entry_removed(once.0, true, keys[i]) == (
                    once.0,
                    Err::<(U, T), HashMapStateError<U>>(HashMapStateError::KeyNotPresent),
                )
            },
{
    let stored = entries_after(Map::<U, T>::empty(), keys, values);
    lemma_entries_after_distinct(keys, values);
    assert forall|i: int| #![trigger keys[i]] 0 <= i < keys.len() implies {
        let before = entries_after(Map::<U, T>::empty(), keys.take(i), values.take(i));
        let once = entry_removed(stored, true, keys[i]);
        &&& entry_added(before, true, keys[i], values[i]).1 is Ok
        &&& once.1 == Ok::<(U, T), HashMapStateError<U>>((keys[i], values[i]))
        &&& once.0.len() == keys.len() - 1
        &&& entry_removed(once.0, true, keys[i]) == (
            once.0,
            Err::<(U, T), HashMapStateError<U>>(HashMapStateError::KeyNotPresent),
        )
    } by {
        let front = keys.take(i);
        lemma_entries_after_distinct(front, values.take(i));
        if front.to_set().contains(keys[i]) {
            let j = choose|j: int| 0 <= j < front.len() && front[j] == keys[i];
            assert(keys[j] == keys[i]);
        }
    }
}

/// A second add under a key is refused with `KeyAlreadyPresent` and changes
/// nothing: the key keeps the value that the first add gave it, or the one
/// it had before where the first add was refused too.
pub proof fn lemma_second_add_refused<U: Eq + Hash, T>(
    entries: Map<U, T>,
    key: U,
    first: T,
    second: T,
)
    ensures
        ({
            let once = entry_added(entries, true, key, first);
            let twice = entry_added(once.0, true, key, second);
            &&& twice.1 == Err::<(), HashMapStateError<U>>(HashMapStateError::KeyAlreadyPresent(key))
            &&& twice.0 == once.0
            &&& twice.0.contains_key(key)
            &&& once.1 is Ok ==> twice.0[key] == first
            &&& !(once.1 is Ok) ==> twice.0[key] == entries[key]
        }),
{
}

/// Removing a key that is absent answers `KeyNotPresent` and leaves the
/// store, and so its size, as it was.
pub proof fn lemma_remove_absent_changes_nothing<U: Eq + Hash, T>(entries: Map<U, T>, key: U)
    requires
        !entries.contains_key(key),
    ensures
        entry_removed(entries, true, key).1 == Err::<(U, T), HashMapStateError<U>>(
            HashMapStateError::KeyNotPresent,
        ),
        entry_removed(entries, true, key).0 == entries,
        entry_removed(entries, true, key).0.len() == entries.len(),
{
}

/// Whether a store may give the answer `added` to an add under `key`:
/// `KeyAlreadyPresent` names the key that was to be added, and
/// `KeyNotPresent` is no answer to an add.
pub open spec fn answers_add<U: Eq + Hash>(key: U, added: Result<(), HashMapStateError<U>>) -> bool {
    match added {
        Ok(_) => true,
        Err(HashMapStateError::KeyAlreadyPresent(k)) => k == key,
        Err(HashMapStateError::CouldNotAcquireMap) => true,
        Err(HashMapStateError::KeyNotPresent) => false,
    }
}

/// Whether a store may give the answer `removed` to the removal of `key`:
/// the entry that is handed out is under that key, and `KeyAlreadyPresent`
/// is no answer to a removal.
pub open spec fn answers_remove<U: Eq + Hash, T>(
    key: U,
    removed: Result<(U, T), HashMapStateError<U>>,
) -> bool {
    match removed {
        Ok((k, _)) => k == key,
        Err(HashMapStateError::KeyAlreadyPresent(_)) => false,
        Err(HashMapStateError::CouldNotAcquireMap) => true,
        Err(HashMapStateError::KeyNotPresent) => true,
    }
}

/// A keyed store with at most one writer per key.
///
/// A store is either exclusive or shared. An exclusive store is in the hands
/// of one user at a time, so it holds what the operations of that user have
/// left in it, and each operation says exactly what it does to the entries
/// and what it answers. A shared store may be changed by other users between
/// any two operations: of it the operations say only which answers they may
/// give.
pub trait HasHashMap<U, T> where U: Eq + Hash, Self: Sized {
    /// What stores of this type ask of keys of type `U`. A store in a hash
    /// map asks that equal keys are found again and unequal keys are kept
    /// apart.
    open spec fn keys_lawful() -> bool {
        true
    }

    /// Whether stores of this type are exclusive. A type of which nothing is
    /// said is not.
    open spec fn exclusive() -> bool {
        false
    }

    /// The entries an exclusive store holds. Of a shared store this says
    /// nothing.
    open spec fn entries(&self) -> Map<U, T> {
        Map::empty()
    }

    /// Whether an exclusive store can be reached. One that cannot stays so.
    open spec fn available(&self) -> bool {
        true
    }

    /// An empty store.
    fn new() -> (store: Self)
        requires
            Self::keys_lawful(),
        ensures
            Self::exclusive() ==> store.entries() == Map::<U, T>::empty() && store.available(),
    ;

    /// Adds `value` under `key`, unless the key is present.
    fn add_entry(&mut self, key: U, value: T) -> (added: Result<(), HashMapStateError<U>>)
        requires
            Self::keys_lawful(),
        ensures
            answers_add(key, added),
            Self::exclusive() ==> {
                &&& final(self).entries() == entry_added(
                    old(self).entries(),
                    old(self).available(),
                    key,
                    value,
                ).0
                &&& added == entry_added(old(self).entries(), old(self).available(), key, value).1
                &&& final(self).available() == old(self).available()
            },
    ;

    /// Removes the entry under `key` and hands it out.
    fn remove_entry(&mut self, key: U) -> (removed: Result<(U, T), HashMapStateError<U>>)
        requires
            Self::keys_lawful(),
        ensures
            answers_remove(key, removed),
            Self::exclusive() ==> {
                &&& final(self).entries() == entry_removed(
                    old(self).entries(),
                    old(self).available(),
                    key,
                ).0
                &&& removed == entry_removed(old(self).entries(), old(self).available(), key).1
                &&& final(self).available() == old(self).available()
            },
    ;
}

/// An exclusive store, kept in a hash map. It can always be reached.
///
/// Every operation that changes it takes it by `&mut`, so each is atomic with
/// respect to every other. To share a store between threads, use
/// [`crate::shared::SharedHashMapState`].
pub struct HashMapState<U, T> where U: Eq + Hash + Debug {
    map: HashMap<U, T>,
}

impl<U, T> HashMapState<U, T> where U: Eq + Hash + Debug + Copy {
    /// The number of entries in the store.
    pub fn len(&self) -> (n: usize)
        requires
            obeys_key_model::<U>(),
        ensures
            n == self.entries().len(),
    {
        self.map.len()
    }

    /// Whether the store holds an entry under `key`.
    pub fn contains_key(&self, key: U) -> (present: bool)
        requires
            obeys_key_model::<U>(),
        ensures
            present == self.entries().contains_key(key),
    {
        self.map.contains_key(&key)
    }
}

impl<U, T> HasHashMap<U, T> for HashMapState<U, T> where U: Eq + Hash + Debug + Copy {
    open spec fn keys_lawful() -> bool {
        obeys_key_model::<U>()
    }

    open spec fn exclusive() -> bool {
        true
    }

    closed spec fn entries(&self) -> Map<U, T> {
        self.map@
    }

    open spec fn available(&self) -> bool {
        true
    }

    fn new() -> (store: Self) {
        Self { map: HashMap::new() }
    }

    fn add_entry(&mut self, key: U, value: T) -> (added: Result<(), HashMapStateError<U>>) {
        if self.map.contains_key(&key) {
            Err(HashMapStateError::KeyAlreadyPresent(key))
        } else {
            self.map.insert(key, value);
            Ok(())
        }
    }

    fn remove_entry(&mut self, key: U) -> (removed: Result<(U, T), HashMapStateError<U>>) {
        match self.map.remove(&key) {
            Some(value) => Ok((key, value)),
            None => Err(HashMapStateError::KeyNotPresent),
        }
    }
}

} // verus!
