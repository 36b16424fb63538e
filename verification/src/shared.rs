//! A keyed store that threads can share.

use crate::error::HashMapStateError;
use crate::store::{answers_add, answers_remove, HasHashMap, HashMapState};
use std::fmt::Debug;
use std::hash::Hash;
use std::sync::{Arc, Mutex, MutexGuard};
use vstd::prelude::*;
use vstd::std_specs::hash::*;

verus! {

/// `std::sync::Mutex`, a lock around a value.
#[verifier::external_type_specification]
#[verifier::external_body]
#[verifier::reject_recursive_types(T)]
pub struct ExMutex<T: ?Sized>(Mutex<T>);

/// `std::sync::MutexGuard`, the hold on a lock for as long as it lives.
#[verifier::external_type_specification]
#[verifier::external_body]
#[verifier::reject_recursive_types(T)]
pub struct ExMutexGuard<'a, T: ?Sized + 'a>(MutexGuard<'a, T>);

/// `Mutex::new`: a lock around `value` that nobody holds. Nothing is claimed
/// of it.
#[verifier::external_body]
fn lock_around<V>(value: V) -> Mutex<V> {
    Mutex::new(value)
}

/// `Mutex::lock`: waits until the lock is free and holds it, or gives `None`
/// where the lock is poisoned, which it is once a thread has panicked while
/// holding it. Nothing is claimed of which of the two comes back. Like any
/// lock it must not be asked for by a thread that holds it: the operations
/// of [`SharedHashMapState`] ask for it once and let go of it before they
/// return, so that only a key or a value whose own `Hash`, `Eq` or `Drop`
/// called back into the same store could do so.
#[verifier::external_body]
fn acquire<'a, V>(lock: &'a Mutex<V>) -> Option<MutexGuard<'a, V>> {
    match lock.lock() {
        Ok(guard) => Some(guard),
        Err(_) => None,
    }
}

/// `DerefMut::deref_mut` of a `MutexGuard`: the value behind the lock, for
/// as long as the lock is held. Nothing is claimed of the value.
#[verifier::external_body]
fn guarded<'a, 'b, V>(guard: &'a mut MutexGuard<'b, V>) -> &'a mut V {
    &mut **guard
}

/// A shared store: a handle on an exclusive store behind a lock, for
/// threads to use at the same time. Handles that were cloned from one
/// another are handles on the same store. Each operation holds the lock from
/// before its first look at the entries until after its last, and does under
/// the lock what [`HashMapState`] does. A lock that cannot be had, because a
/// thread panicked while holding it, is reported as `CouldNotAcquireMap`.
#[verifier::reject_recursive_types(U)]
#[verifier::reject_recursive_types(T)]
pub struct SharedHashMapState<U, T> where U: Eq + Hash + Debug {
    map: Arc<Mutex<HashMapState<U, T>>>,
}

impl<U, T> SharedHashMapState<U, T> where U: Eq + Hash + Debug + Copy {
    /// An empty store.
    pub fn new() -> (store: Self)
        requires
            obeys_key_model::<U>(),
    {
        Self { map: Arc::new(lock_around(HashMapState::new())) }
    }

    /// Adds `value` under `key`, unless the key is present at the time.
    pub fn add_entry(&self, key: U, value: T) -> (added: Result<(), HashMapStateError<U>>)
        requires
            obeys_key_model::<U>(),
        ensures
            answers_add(key, added),
    {
        match acquire(&self.map) {
            Some(mut guard) => guarded(&mut guard).add_entry(key, value),
            None => Err(HashMapStateError::CouldNotAcquireMap),
        }
    }

    /// Removes the entry that is under `key` at the time and hands it out.
    pub fn remove_entry(&self, key: U) -> (removed: Result<(U, T), HashMapStateError<U>>)
        requires
            obeys_key_model::<U>(),
        ensures
            answers_remove(key, removed),
    {
        match acquire(&self.map) {
            Some(mut guard) => guarded(&mut guard).remove_entry(key),
            None => Err(HashMapStateError::CouldNotAcquireMap),
        }
    }
}

impl<U, T> Clone for SharedHashMapState<U, T> where U: Eq + Hash + Debug {
    /// Another handle on the same store.
    fn clone(&self) -> Self {
        Self { map: self.map.clone() }
    }
}

impl<U, T> HasHashMap<U, T> for SharedHashMapState<U, T> where U: Eq + Hash + Debug + Copy {
    open spec fn keys_lawful() -> bool {
        obeys_key_model::<U>()
    }

    fn new() -> (store: Self) {
        SharedHashMapState::new()
    }

    fn add_entry(&mut self, key: U, value: T) -> (added: Result<(), HashMapStateError<U>>) {
        SharedHashMapState::add_entry(&*self, key, value)
    }

    fn remove_entry(&mut self, key: U) -> (removed: Result<(U, T), HashMapStateError<U>>) {
        SharedHashMapState::remove_entry(&*self, key)
    }
}

} // verus!
