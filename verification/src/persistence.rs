//! The persistence collaborator: a stub the server tolerates either way.
//!
//! Nothing in the request path depends on a commit's outcome; the clients
//! here exist so an embedding program can wire one in without touching the
//! protocol logic.

use vstd::prelude::*;

verus! {

/// The failure a persistence client may report for a commit.
#[derive(Clone, Copy, Debug, PartialEq, Eq, Structural)]
pub struct CommitError;

/// A client that stores data somewhere. Implementations may fail; the server
/// treats either outcome the same.
pub trait DbClient {
    /// Stores one datum.
    fn commit(&self, data: String) -> Result<(), CommitError>;
}

/// A no-op client whose commits always succeed.
pub struct DummyDbClient {}

impl DbClient for DummyDbClient {
    fn commit(&self, data: String) -> (r: Result<(), CommitError>)
        ensures
            r is Ok,
    {
        Ok(())
    }
}

/// A client that would keep data in memory; it accepts every commit.
pub struct InMemoryDbClient {}

impl InMemoryDbClient {
    pub fn new() -> (c: InMemoryDbClient) {
        InMemoryDbClient {  }
    }
}

impl DbClient for InMemoryDbClient {
    fn commit(&self, data: String) -> (r: Result<(), CommitError>)
        ensures
            r is Ok,
    {
        Ok(())
    }
}

} // verus!
