//! A minimal TCP web server core: a single-line request parser, a route
//! table, HTTP-shaped response construction, and the start/stop lifecycle
//! state machine that guards a listening session.
//!
//! The pieces here are pure: sockets, threads and the filesystem live with
//! the embedding program, which feeds bytes in and carries bytes out.

pub mod lifecycle;
pub mod request;
pub mod response;
pub mod routes;
pub mod handler;
pub mod serverinternal;
pub mod server;
pub mod acceptor;
pub mod persistence;
