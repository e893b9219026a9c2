//! The public face of the server: routes, start, stop.
//!
//! A `Server` collects routes while it is unstarted, hands out an immutable
//! HTTP responder over a snapshot of them when it starts, and can be stopped
//! once. The embedding program binds the socket, runs the accept loop with
//! the responder, and reports a failed bind back through `bind_failed`.

use vstd::prelude::*;

use crate::handler::HttpHandler;
use crate::lifecycle::{
    bind_failed_step, registration_open, start_step, stop_step, LifecycleError, LifecycleState,
};
use crate::routes::RouteTable;

verus! {

/// The abstract state of a server: its lifecycle, the address of a live
/// session, and the routes registered so far.
pub struct ServerView {
    pub state: LifecycleState,
    pub address: Option<Seq<char>>,
    pub routes: Map<Seq<char>, Seq<char>>,
}

/// An HTTP server: a route table behind the lifecycle state machine.
pub struct Server {
    state: LifecycleState,
    address: Option<String>,
    routes: RouteTable,
}

impl View for Server {
    type V = ServerView;

    closed spec fn view(&self) -> ServerView {
        ServerView {
            state: self.state,
            address: match self.address {
                Some(a) => Some(a@),
                None => None,
            },
            routes: self.routes@,
        }
    }
}

impl Server {
    /// A fresh server: unstarted, with no routes.
    pub fn new() -> (s: Server)
        ensures
            s@.state is Unstarted,
            s@.address is None,
            s@.routes == Map::<Seq<char>, Seq<char>>::empty(),
    {
        Server { state: LifecycleState::Unstarted, address: None, routes: RouteTable::new() }
    }

    /// Maps `path` to `locator`, silently overwriting an existing entry.
    /// Registration is open only before the first start; afterwards the
    /// routes are locked and the call is refused unchanged.
    pub fn register_route(&mut self, path: String, locator: String) -> (r: Result<
        (),
        LifecycleError,
    >)
        ensures
            registration_open(old(self)@.state) ==> r is Ok && final(self)@.routes == old(
                self,
            )@.routes.insert(path@, locator@),
            !registration_open(old(self)@.state) ==> r == Err::<(), LifecycleError>(
                LifecycleError::RoutesLocked,
            ) && final(self)@.routes == old(self)@.routes,
            final(self)@.state == old(self)@.state,
            final(self)@.address == old(self)@.address,
    {
        match self.state {
            LifecycleState::Unstarted => {
                self.routes.register(path, locator);
                Ok(())
            },
            _ => Err(LifecycleError::RoutesLocked),
        }
    }

    /// Opens the one listening session at `address` and returns the responder
    /// for it, built over a snapshot of the routes as they stand now. Succeeds
    /// exactly when the server has never listened; a server that is listening,
    /// or has already stopped, is refused unchanged.
    pub fn start(&mut self, address: &str) -> (r: Result<HttpHandler, LifecycleError>)
        ensures
            final(self)@.state == start_step(old(self)@.state).0,
            final(self)@.routes == old(self)@.routes,
            match start_step(old(self)@.state).1 {
                Ok(()) => (r matches Ok(h) && h@ == old(self)@.routes) && final(self)@.address
                    == Some(address@),
                Err(e) => r == Err::<HttpHandler, LifecycleError>(e) && final(self)@.address == old(
                    self,
                )@.address,
            },
    {
        match self.state {
            LifecycleState::Unstarted => {
                self.state = LifecycleState::Started;
                self.address = Some(address.to_owned());
                Ok(HttpHandler::new(self.routes.snapshot()))
            },
            _ => Err(LifecycleError::AlreadyListening),
        }
    }

    /// Closes the live session for good. Succeeds exactly when the server is
    /// listening; otherwise the server is left unchanged and the caller is
    /// told no session is live.
    pub fn stop_listening(&mut self) -> (r: Result<(), LifecycleError>)
        ensures
            (final(self)@.state, r) == stop_step(old(self)@.state),
            final(self)@.routes == old(self)@.routes,
            r is Ok ==> final(self)@.address is None,
            r is Err ==> final(self)@.address == old(self)@.address,
    {
        match self.state {
            LifecycleState::Started => {
                self.state = LifecycleState::Stopped;
                self.address = None;
                Ok(())
            },
            _ => Err(LifecycleError::NotListening),
        }
    }

    /// Rolls a freshly opened session back because its address could not be
    /// bound: the server returns to `Unstarted`, routes intact, as if the
    /// start had never happened, and the error to report is returned.
    pub fn bind_failed(&mut self) -> (e: LifecycleError)
        ensures
            e == LifecycleError::Bind,
            final(self)@.state == bind_failed_step(old(self)@.state),
            final(self)@.routes == old(self)@.routes,
            old(self)@.state is Started ==> final(self)@.address is None,
            !(old(self)@.state is Started) ==> final(self)@.address == old(self)@.address,
    {
        if let LifecycleState::Started = self.state {
            self.state = LifecycleState::Unstarted;
            self.address = None;
        }
        LifecycleError::Bind
    }

    /// Whether a session is live.
    pub fn is_listening(&self) -> (b: bool)
        ensures
            b == (self@.state is Started),
    {
        match self.state {
            LifecycleState::Started => true,
            _ => false,
        }
    }
}

} // verus!
