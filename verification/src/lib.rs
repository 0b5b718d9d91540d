//! An in-memory store of movie records behind a small request interface.
//!
//! A record is created under an identifier that the store issues, and is
//! fetched by that identifier for as long as the process lives.
//!
//! - [`movie`]: the record and its model.
//! - [`ident`]: the form of issued identifiers, and the normalization of the
//!   raw path segment that carries one.
//! - [`store`]: the record store, with the exact effect of each operation.
//! - [`state`]: the store behind a lock, shared by the requests in flight.
//! - [`handlers`]: the answers to a create, a fetch and a health request.
//! - [`laws`]: what follows for every store, proved over the model.

pub mod handlers;
pub mod ident;
pub mod laws;
pub mod movie;
pub mod state;
pub mod store;
