//! The record store: a map from issued identifiers to movie records.

use crate::ident::{canonical_id, generate_id, is_canonical_id};
use crate::movie::{Movie, MovieView};
use vstd::hash_map::StringHashMap;
use vstd::prelude::*;

verus! {

/// The contents of a store: each issued identifier with its record.
pub type Contents = Map<Seq<char>, MovieView>;

/// What holds of the contents of every store: each key has the form of an
/// issued identifier, and the record under it carries that key as its `id`.
pub open spec fn consistent(contents: Contents) -> bool {
    forall|id: Seq<char>| #[trigger]
        contents.contains_key(id) ==> canonical_id(id) && contents[id].id == id
}

/// The contents after `movie` was stored under `id`: the record carries `id`
/// as its own, it replaces whatever stood under `id`, and nothing else changes.
pub open spec fn stored_under(contents: Contents, id: Seq<char>, movie: MovieView) -> Contents {
    contents.insert(id, movie.with_id(id))
}

/// What a fetch of `id` finds in `contents`.
pub open spec fn fetched(contents: Contents, id: Seq<char>) -> Option<MovieView> {
    if contents.contains_key(id) {
        Some(contents[id])
    } else {
        None
    }
}

/// The model of a record that may be absent.
pub open spec fn record_view(record: Option<Movie>) -> Option<MovieView> {
    match record {
        Some(movie) => Some(movie@),
        None => None,
    }
}

/// The contents of a store whose map is `db`.
spec fn contents_of(db: Map<Seq<char>, Movie>) -> Contents {
    db.map_values(|movie: Movie| movie@)
}

/// The movie records of one process, each under the identifier that the store
/// issued for it.  No operation removes a record, and none changes one but a
/// create under the same identifier, which the generator of identifiers
/// makes practically impossible.
pub struct RecordStore {
    db: StringHashMap<Movie>,
}

impl View for RecordStore {
    type V = Contents;

    closed spec fn view(&self) -> Contents {
        contents_of(self.db@)
    }
}

impl RecordStore {
    #[verifier::type_invariant]
    spec fn well_formed(&self) -> bool {
        consistent(self@)
    }

    /// An empty store.
    pub fn new() -> (store: RecordStore)
        ensures
            store@ == Map::<Seq<char>, MovieView>::empty(),
    {
        RecordStore { db: StringHashMap::new() }
    }

    /// Stores `movie` under `id`, which replaces the `id` that the record
    /// came with.
    pub(crate) fn store_issued(&mut self, id: String, movie: Movie)
        requires
            canonical_id(id@),
        ensures
            final(self)@ == stored_under(old(self)@, id@, movie@),
            consistent(final(self)@),
    {
        proof {
            use_type_invariant(&*self);
        }
        let stored = movie.with_id(id.clone());
        // The map is taken out while it grows, so that the store is
        // consistent at every point at which the insertion could unwind.
        let mut db = StringHashMap::new();
        std::mem::swap(&mut self.db, &mut db);
        db.insert(id, stored);
        assert(contents_of(db@) =~= stored_under(old(self)@, id@, movie@));
        self.db = db;
    }

    /// Stores `movie` under the given identifier, as [`RecordStore::create`]
    /// does under one that it issues itself: like a create whose identifier
    /// was issued before, it replaces the record that stood under `id`.  An
    /// identifier that the store could not have issued is refused: the store
    /// stays as it is and the result is `false`.
    pub fn create_with_id(&mut self, id: String, movie: Movie) -> (accepted: bool)
        ensures
            accepted == canonical_id(id@),
            final(self)@ == if accepted {
                stored_under(old(self)@, id@, movie@)
            } else {
                old(self)@
            },
            consistent(final(self)@),
    {
        if is_canonical_id(id.as_str()) {
            self.store_issued(id, movie);
            true
        } else {
            proof {
                use_type_invariant(&*self);
            }
            false
        }
    }

    /// Issues a new identifier, stores `movie` under it and returns it.  The
    /// `id` that `movie` came with is replaced by the new one.
    pub fn create(&mut self, movie: Movie) -> (id: String)
        ensures
            canonical_id(id@),
            final(self)@ == stored_under(old(self)@, id@, movie@),
            consistent(final(self)@),
    {
        let id = generate_id();
        self.store_issued(id.clone(), movie);
        id
    }

    /// A copy of the record stored under `id`; `None` if `id` was never
    /// issued.  What is found carries `id` as its own.
    pub fn fetch(&self, id: &str) -> (found: Option<Movie>)
        ensures
            record_view(found) == fetched(self@, id@),
            consistent(self@),
    {
        proof {
            use_type_invariant(self);
        }
        match self.db.get(id) {
            Some(movie) => Some(movie.clone()),
            None => None,
        }
    }
}

} // verus!
