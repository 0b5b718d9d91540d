//! The shared state: one record store behind one lock, reachable from every
//! request that is served at the same time.
//!
//! Every access, read or write, takes the lock for the whole store.  What a
//! request finds there depends on the requests that ran before it, so the
//! contracts of this module state with what contents a state starts and
//! what holds of every store; what an operation does to a given store is
//! stated in [`crate::store`].

use crate::ident::{canonical_id, generate_id, is_canonical_id};
use crate::movie::{Movie, MovieView};
use crate::store::{Contents, RecordStore};
use std::sync::{Arc, Mutex, MutexGuard};
use vstd::prelude::*;

verus! {

/// `std::sync::Mutex`, declared as an opaque type: what it holds changes
/// under a shared reference, so no contract speaks of what it holds now.
#[verifier::external_type_specification]
#[verifier::external_body]
#[verifier::reject_recursive_types(T)]
pub struct ExMutex<T: ?Sized>(Mutex<T>);

/// `std::sync::MutexGuard`, declared as an opaque type.  The lock is released
/// when the guard is dropped.
#[verifier::external_type_specification]
#[verifier::external_body]
#[verifier::reject_recursive_types(T)]
pub struct ExMutexGuard<'a, T: ?Sized + 'a>(MutexGuard<'a, T>);

/// The contents of the store around which a lock was made.  What the lock
/// holds later is no function of the lock, and has no name.
pub uninterp spec fn started_with(lock: Mutex<RecordStore>) -> Contents;

/// Calls `std::sync::Mutex::new`, which makes an unlocked lock around
/// `store`.  Trusted: the lock started with the contents of `store`.
#[verifier::external_body]
fn new_lock(store: RecordStore) -> (lock: Mutex<RecordStore>)
    ensures
        started_with(lock) == store@,
{
    Mutex::new(store)
}

/// Calls `std::sync::Mutex::lock` and waits until the lock is free.  `None`
/// stands for a poisoned lock: a thread panicked while it held the guard.
///
/// Trusted; nothing is claimed of the guard.  `lock` may panic or block for
/// ever on a thread that holds the guard already; no function of this
/// module takes the lock twice or hands a guard out.
#[verifier::external_body]
fn acquire<'a>(lock: &'a Mutex<RecordStore>) -> (guard: Option<MutexGuard<'a, RecordStore>>) {
    lock.lock().ok()
}

/// `DerefMut::deref_mut` of `std::sync::MutexGuard`: the store to which the
/// guard gives exclusive access.  Trusted; nothing is claimed of the store
/// beyond what holds of every [`RecordStore`].
#[verifier::external_body]
fn guarded<'a, 'b>(guard: &'a mut MutexGuard<'b, RecordStore>) -> (store: &'a mut RecordStore) {
    &mut **guard
}

/// Why the shared store could not be used.
#[derive(Debug, Clone, Copy, PartialEq, Eq, Structural)]
pub enum StoreError {
    /// The lock is poisoned: a request ended abnormally while it held the
    /// lock.  The store is not used again.
    Poisoned,
}

/// A handle to the shared record store.  Clones refer to the same store.
#[derive(Clone)]
pub struct AppState {
    db: Arc<Mutex<RecordStore>>,
}

impl AppState {
    /// The contents with which the shared store started.
    pub closed spec fn initial(&self) -> Contents {
        started_with(*self.db)
    }

    /// A handle to a new store, which starts empty.
    pub fn new() -> (state: AppState)
        ensures
            state.initial() == Map::<Seq<char>, MovieView>::empty(),
    {
        AppState { db: Arc::new(new_lock(RecordStore::new())) }
    }

    /// Stores `movie` under a new identifier and returns the identifier, as
    /// [`RecordStore::create`] does.  The identifier is issued first; the lock
    /// is held while the record goes into the store.
    pub fn create(&self, movie: Movie) -> (issued: Result<String, StoreError>)
        ensures
            issued matches Ok(id) ==> canonical_id(id@),
    {
        let id = generate_id();
        match acquire(&self.db) {
            Some(mut guard) => {
                guarded(&mut guard).store_issued(id.clone(), movie);
                Ok(id)
            },
            None => Err(StoreError::Poisoned),
        }
    }

    /// A copy of the record stored under `id`, as [`RecordStore::fetch`]
    /// finds it, with the lock held.
    ///
    /// A string that is not of the issued form is under no identifier in any
    /// store: nothing is found for it, and the lock is not taken.  What is
    /// found for another carries it as its `id`.
    pub fn fetch(&self, id: &str) -> (found: Result<Option<Movie>, StoreError>)
        ensures
            !canonical_id(id@) ==> found matches Ok(None),
            found matches Ok(Some(movie)) ==> movie@.id == id@,
    {
        if !is_canonical_id(id) {
            return Ok(None);
        }
        match acquire(&self.db) {
            Some(mut guard) => Ok(guarded(&mut guard).fetch(id)),
            None => Err(StoreError::Poisoned),
        }
    }
}

} // verus!
