//! The request handlers: what the service answers to a create and to a fetch
//! request, given what the transport layer decoded.

use crate::ident::{canonical_id, clean_id, normalized_id};
use crate::movie::{Movie, MovieView};
use crate::state::{AppState, StoreError};
use vstd::prelude::*;

verus! {

/// The payload that answers a create request: the generated identifier and
/// nothing else.
#[derive(Debug)]
pub struct MovieId {
    pub id: String,
}

/// Why a request got no payload.
#[derive(Debug, Clone, Copy, PartialEq, Eq, Structural)]
pub enum HandlerError {
    /// No record is stored under the identifier of the request.
    NotFound,
    /// The shared store can no longer be used.
    StoreUnavailable,
}

/// The status that goes out with a reply: 200 with a payload, 404 where
/// nothing was found, 500 where the store failed.
pub open spec fn status_of<T>(reply: Result<T, HandlerError>) -> u16 {
    match reply {
        Ok(_) => 200,
        Err(HandlerError::NotFound) => 404,
        Err(HandlerError::StoreUnavailable) => 500,
    }
}

/// The reply to a create request, given what the store returned.
pub open spec fn created(issued: Result<Seq<char>, StoreError>) -> Result<Seq<char>, HandlerError> {
    match issued {
        Ok(id) => Ok(id),
        Err(StoreError::Poisoned) => Err(HandlerError::StoreUnavailable),
    }
}

/// The reply to a fetch request, given what the store returned.
pub open spec fn found(fetched: Result<Option<MovieView>, StoreError>) -> Result<
    MovieView,
    HandlerError,
> {
    match fetched {
        Ok(Some(movie)) => Ok(movie),
        Ok(None) => Err(HandlerError::NotFound),
        Err(StoreError::Poisoned) => Err(HandlerError::StoreUnavailable),
    }
}

/// The model of what the store returned to a create.
pub open spec fn issued_view(issued: Result<String, StoreError>) -> Result<Seq<char>, StoreError> {
    match issued {
        Ok(id) => Ok(id@),
        Err(e) => Err(e),
    }
}

/// The model of what the store returned to a fetch.
pub open spec fn fetched_view(fetched: Result<Option<Movie>, StoreError>) -> Result<
    Option<MovieView>,
    StoreError,
> {
    match fetched {
        Ok(Some(movie)) => Ok(Some(movie@)),
        Ok(None) => Ok(None),
        Err(e) => Err(e),
    }
}

/// The model of the reply to a create request.
pub open spec fn id_reply_view(reply: Result<MovieId, HandlerError>) -> Result<
    Seq<char>,
    HandlerError,
> {
    match reply {
        Ok(payload) => Ok(payload.id@),
        Err(e) => Err(e),
    }
}

/// The model of the reply to a fetch request.
pub open spec fn movie_reply_view(reply: Result<Movie, HandlerError>) -> Result<
    MovieView,
    HandlerError,
> {
    match reply {
        Ok(movie) => Ok(movie@),
        Err(e) => Err(e),
    }
}

/// The status code of a reply.
pub fn status_code<T>(reply: &Result<T, HandlerError>) -> (code: u16)
    ensures
        code == status_of(*reply),
{
    match reply {
        Ok(_) => 200,
        Err(HandlerError::NotFound) => 404,
        Err(HandlerError::StoreUnavailable) => 500,
    }
}

/// Turns what the store returned to a create into the reply: the identifier
/// alone on success.
pub fn create_reply(issued: Result<String, StoreError>) -> (reply: Result<MovieId, HandlerError>)
    ensures
        id_reply_view(reply) == created(issued_view(issued)),
{
    match issued {
        Ok(id) => Ok(MovieId { id }),
        Err(StoreError::Poisoned) => Err(HandlerError::StoreUnavailable),
    }
}

/// Turns what the store returned to a fetch into the reply: the record where
/// one was found, and not-found, never a failure of the store, where none was.
pub fn fetch_reply(fetched: Result<Option<Movie>, StoreError>) -> (reply: Result<
    Movie,
    HandlerError,
>)
    ensures
        movie_reply_view(reply) == found(fetched_view(fetched)),
{
    match fetched {
        Ok(Some(movie)) => Ok(movie),
        Ok(None) => Err(HandlerError::NotFound),
        Err(StoreError::Poisoned) => Err(HandlerError::StoreUnavailable),
    }
}

/// The body that answers a health request.
pub fn health() -> (body: &'static str)
    ensures
        body@ == "up"@,
{
    "up"
}

/// Handles a create request: stores the decoded record under a new
/// identifier and answers with that identifier.  The `id` that the record
/// came with is not used.
pub fn post_movie(state: &AppState, movie: Movie) -> (reply: Result<MovieId, HandlerError>)
    ensures
        reply matches Ok(payload) ==> canonical_id(payload.id@),
        reply matches Err(e) ==> e == HandlerError::StoreUnavailable,
{
    create_reply(state.create(movie))
}

/// Handles a fetch request.  `movie_id` is the raw path segment: it is
/// normalized, and the record under the normalized identifier is the answer.
///
/// A segment whose normalized form is not of the issued form, such as any
/// segment of at most two characters, is answered with not-found, whatever
/// the state of the store.
pub fn get_movie(state: &AppState, movie_id: String) -> (reply: Result<Movie, HandlerError>)
    ensures
        !canonical_id(normalized_id(movie_id@)) ==> reply matches Err(HandlerError::NotFound),
        reply matches Ok(movie) ==> movie@.id == normalized_id(movie_id@),
{
    let cleaned_id = clean_id(movie_id);
    fetch_reply(state.fetch(cleaned_id.as_str()))
}

} // verus!
