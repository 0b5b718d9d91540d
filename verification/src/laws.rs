//! Laws of the record store, stated over its model and proved.

use crate::handlers::{found, status_of, HandlerError};
use crate::ident::{canonical_id, normalized_id};
use crate::movie::MovieView;
use crate::store::{consistent, fetched, stored_under, Contents};
use vstd::prelude::*;

verus! {

/// One create that a store served: the identifier that it issued and the
/// record that was submitted.
pub ghost struct Creation {
    pub id: Seq<char>,
    pub movie: MovieView,
}

/// The contents of a store that started empty and served the creates of
/// `log`, one after the other.
pub open spec fn replay(log: Seq<Creation>) -> Contents
    decreases log.len(),
{
    if log.len() == 0 {
        Map::empty()
    } else {
        stored_under(replay(log.drop_last()), log.last().id, log.last().movie)
    }
}

/// `id` was issued by one of the creates of `log`.
pub open spec fn issued_in(log: Seq<Creation>, id: Seq<char>) -> bool {
    exists|i: int| 0 <= i < log.len() && (#[trigger] log[i]).id == id
}

/// No two creates of `log` were issued the same identifier.
pub open spec fn distinct_ids(log: Seq<Creation>) -> bool {
    forall|i: int, j: int|
        0 <= i < j < log.len() ==> (#[trigger] log[i]).id != (#[trigger] log[j]).id
}

/// Every identifier of `log` has the issued form.
pub open spec fn canonical_ids(log: Seq<Creation>) -> bool {
    forall|i: int| 0 <= i < log.len() ==> canonical_id((#[trigger] log[i]).id)
}

/// Round trip: a fetch by the identifier that a create returned finds the
/// record that was submitted, unchanged but for its `id`, which is that
/// identifier.  This holds on every store and for every record.
pub proof fn lemma_created_is_fetched(contents: Contents, id: Seq<char>, movie: MovieView)
    ensures
        fetched(stored_under(contents, id, movie), id) == Some(movie.with_id(id)),
        fetched(stored_under(contents, id, movie), id)->0.same_content(movie),
        fetched(stored_under(contents, id, movie), id)->0.id == id,
{
}

/// A create changes what is found under its own identifier and nothing
/// else: every other identifier finds what it found before.
pub proof fn lemma_create_keeps_others(
    contents: Contents,
    id: Seq<char>,
    movie: MovieView,
    other: Seq<char>,
)
    requires
        other != id,
    ensures
        fetched(stored_under(contents, id, movie), other) == fetched(contents, other),
{
}

/// A create with an identifier of the issued form keeps the store consistent.
pub proof fn lemma_create_keeps_consistent(contents: Contents, id: Seq<char>, movie: MovieView)
    requires
        consistent(contents),
        canonical_id(id),
    ensures
        consistent(stored_under(contents, id, movie)),
{
}

/// The store holds a record under exactly the identifiers that it issued.
pub proof fn lemma_found_iff_issued(log: Seq<Creation>, id: Seq<char>)
    ensures
        fetched(replay(log), id) is Some <==> issued_in(log, id),
    decreases log.len(),
{
    if log.len() > 0 {
        let earlier = log.drop_last();
        lemma_found_iff_issued(earlier, id);
        if issued_in(log, id) {
            let i = choose|i: int| 0 <= i < log.len() && (#[trigger] log[i]).id == id;
            if i < log.len() - 1 {
                assert(earlier[i].id == id);
            }
        }
        if issued_in(earlier, id) {
            let i = choose|i: int| 0 <= i < earlier.len() && (#[trigger] earlier[i]).id == id;
            assert(log[i].id == id);
        }
    }
}

/// A fetch by an identifier that no create ever issued finds nothing,
/// whatever the string is.
pub proof fn lemma_unissued_not_found(log: Seq<Creation>, id: Seq<char>)
    requires
        !issued_in(log, id),
    ensures
        fetched(replay(log), id) is None,
{
    lemma_found_iff_issued(log, id);
}

/// After any number of creates that were issued distinct identifiers, a
/// fetch by each of them finds the record that was submitted with that
/// create: no entry takes the place of another.
pub proof fn lemma_each_creation_found(log: Seq<Creation>, i: int)
    requires
        distinct_ids(log),
        0 <= i < log.len(),
    ensures
        fetched(replay(log), log[i].id) == Some(log[i].movie.with_id(log[i].id)),
    decreases log.len(),
{
    if i < log.len() - 1 {
        let earlier = log.drop_last();
        lemma_each_creation_found(earlier, i);
    }
}

/// A store that served only creates with identifiers of the issued form is
/// consistent.
pub proof fn lemma_replay_consistent(log: Seq<Creation>)
    requires
        canonical_ids(log),
    ensures
        consistent(replay(log)),
    decreases log.len(),
{
    if log.len() > 0 {
        let earlier = log.drop_last();
        lemma_replay_consistent(earlier);
    }
}

/// A string that is not of the issued form is found in no store.
pub proof fn lemma_malformed_not_found(contents: Contents, id: Seq<char>)
    requires
        consistent(contents),
        !canonical_id(id),
    ensures
        fetched(contents, id) is None,
{
}

/// A raw path segment of at most two characters normalizes to the empty
/// string, which is not of the issued form: such a request finds nothing.
pub proof fn lemma_short_segment_not_found(contents: Contents, raw: Seq<char>)
    requires
        consistent(contents),
        raw.len() <= 2,
    ensures
        normalized_id(raw) == Seq::<char>::empty(),
        !canonical_id(normalized_id(raw)),
        fetched(contents, normalized_id(raw)) is None,
{
}

/// Normalization strips exactly one character from each end: a segment of a
/// boundary character, an identifier and a boundary character normalizes to
/// the identifier.
pub proof fn lemma_normalization_strips_boundaries(first: char, id: Seq<char>, last: char)
    ensures
        normalized_id(seq![first] + id + seq![last]) == id,
{
    let raw = seq![first] + id + seq![last];
    assert(raw.subrange(1, raw.len() - 1) =~= id);
}

/// A movie that was posted is got back: on a store that works, a fetch
/// request whose segment is the returned identifier between two boundary
/// characters is answered with status 200 and the record that was posted,
/// under that identifier.
pub proof fn lemma_posted_movie_is_got(
    contents: Contents,
    id: Seq<char>,
    movie: MovieView,
    first: char,
    last: char,
)
    ensures
        found(Ok(fetched(stored_under(contents, id, movie), normalized_id(seq![first] + id + seq![last]))))
            == Ok::<MovieView, HandlerError>(movie.with_id(id)),
        status_of(
            found(Ok(fetched(stored_under(contents, id, movie), normalized_id(seq![first] + id + seq![last])))),
        ) == 200,
{
    lemma_normalization_strips_boundaries(first, id, last);
}

/// A fetch request for an identifier that was never issued is answered with
/// status 404, on every store that works.
pub proof fn lemma_unissued_is_a_client_error(log: Seq<Creation>, raw: Seq<char>)
    requires
        !issued_in(log, normalized_id(raw)),
    ensures
        found(Ok(fetched(replay(log), normalized_id(raw)))) == Err::<MovieView, HandlerError>(
            HandlerError::NotFound,
        ),
        status_of(found(Ok(fetched(replay(log), normalized_id(raw))))) == 404,
{
    lemma_unissued_not_found(log, normalized_id(raw));
}

} // verus!
