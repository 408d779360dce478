//! The shared configuration store: one slot that holds the current snapshot,
//! read and replaced through a shared reference from any number of threads.
//!
//! The slot is an atomically swappable pointer, so neither readers nor writers
//! take a lock. What a `load` returns therefore depends on what other callers
//! did in the meantime; its contract states what holds of every snapshot it
//! can return: it is the one the store was set up with, or one that satisfies
//! the store's [`Rule`]. How the calls of all callers fall into one order, and
//! what each `load` then observes, is the subject of [`crate::history`].

use crate::rule::{Rule, Unrestricted};
use crate::slot::CurrentSlot;
use std::sync::Arc;
use vstd::prelude::*;

verus! {

/// A handle to one published snapshot. It is shared, counted and read-only:
/// whoever holds it keeps seeing the same value, whatever the store does next.
pub type SharedSnapshot<T> = Arc<T>;

/// Why a store could not be set up.
#[derive(Clone, Copy, Debug, PartialEq, Eq)]
pub enum StoreError {
    /// No initial snapshot was supplied.
    NotInitialized,
}

/// The store. From the moment it exists it holds exactly one snapshot, the
/// current one, so a `load` always finds one.
#[verifier::reject_recursive_types(T)]
#[verifier::reject_recursive_types(R)]
pub struct ConfigStore<T, R: Rule<T> = Unrestricted> {
    slot: CurrentSlot<T, R>,
}

impl<T> ConfigStore<T> {
    /// Sets a store up with `initial` as its first snapshot. Any snapshot may
    /// be published in it later.
    pub fn new(initial: SharedSnapshot<T>) -> (store: Self)
        ensures
            store.initial() == *initial,
    {
        Self::with_rule(initial)
    }

    /// Sets a store up from what start-up could provide. A missing initial
    /// snapshot is reported here, once, so that no store ever exists without
    /// a snapshot to load.
    pub fn try_new(initial: Option<SharedSnapshot<T>>) -> (outcome: Result<Self, StoreError>)
        ensures
            outcome is Ok <==> initial is Some,
            outcome matches Ok(store) ==> initial matches Some(first) && store.initial() == *first,
            outcome matches Err(reason) ==> reason == StoreError::NotInitialized,
    {
        match initial {
            Some(snapshot) => Ok(Self::new(snapshot)),
            None => Err(StoreError::NotInitialized),
        }
    }
}

impl<T, R: Rule<T>> ConfigStore<T, R> {
    /// Sets a store up with `initial` as its first snapshot. What is published
    /// in it later has to satisfy the rule `R`; the first snapshot need not.
    pub fn with_rule(initial: SharedSnapshot<T>) -> (store: Self)
        ensures
            store.initial() == *initial,
    {
        ConfigStore { slot: CurrentSlot::holding(initial) }
    }

    /// Returns a handle to the snapshot that is current at some instant during
    /// the call. Never blocks and never fails.
    ///
    /// The snapshot is one that was published: the one the store was set up
    /// with, or one that a `store` was given, which the rule admits.
    pub fn load(&self) -> (snapshot: SharedSnapshot<T>)
        ensures
            *snapshot == self.initial() || R::admits(*snapshot),
    {
        self.slot.read()
    }

    /// Makes `snapshot` the current one. Handles given out earlier keep the
    /// snapshot they were given; of two racing calls, the one that takes
    /// effect last decides what is current.
    pub fn store(&self, snapshot: SharedSnapshot<T>)
        requires
            R::admits(*snapshot),
    {
        self.slot.replace(snapshot)
    }

    /// The snapshot that the store was set up with, whatever has been stored
    /// in it since.
    pub closed spec fn initial(&self) -> T {
        self.slot.first()
    }
}

} // verus!
