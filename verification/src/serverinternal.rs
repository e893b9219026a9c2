//! The server core: a lifecycle-guarded holder of one handler.
//!
//! `ServerInternal` owns the handler that responds to connections and the
//! state machine that guards its one listening session. The sockets, the
//! background accept loop and the shutdown channel live with the embedding
//! program; every transition they are allowed to make is decided here.

use vstd::prelude::*;

use crate::handler::Handler;
use crate::lifecycle::{bind_failed_step, start_step, stop_step, LifecycleError, LifecycleState};

verus! {

/// The abstract state of a server core: where its lifecycle stands and, while
/// a session is live, the address it listens at.
pub struct ServerInternalView {
    pub state: LifecycleState,
    pub address: Option<Seq<char>>,
}

/// A server over one handler, able to listen once: created unstarted, started
/// by `listen`, and stopped for good by `stop_listening`.
pub struct ServerInternal<H: Handler> {
    state: LifecycleState,
    address: Option<String>,
    handler: H,
}

impl<H: Handler> View for ServerInternal<H> {
    type V = ServerInternalView;

    closed spec fn view(&self) -> ServerInternalView {
        ServerInternalView {
            state: self.state,
            address: match self.address {
                Some(a) => Some(a@),
                None => None,
            },
        }
    }
}

impl<H: Handler> ServerInternal<H> {
    /// The handler this server dispatches connections to.
    pub closed spec fn spec_handler(&self) -> H {
        self.handler
    }

    /// A server that has not started listening.
    pub fn new(handler: H) -> (s: ServerInternal<H>)
        ensures
            s@.state is Unstarted,
            s@.address is None,
            s.spec_handler() == handler,
    {
        ServerInternal { state: LifecycleState::Unstarted, address: None, handler }
    }

    /// Opens the one listening session, recording the address it serves.
    /// Succeeds exactly when the server has never listened; a server that is
    /// listening, or has already stopped, is refused unchanged.
    pub fn listen(&mut self, address: &str) -> (r: Result<(), LifecycleError>)
        ensures
            (final(self)@.state, r) == start_step(old(self)@.state),
            r is Ok ==> final(self)@.address == Some(address@),
            r is Err ==> final(self)@.address == old(self)@.address,
            final(self).spec_handler() == old(self).spec_handler(),
    {
        match self.state {
            LifecycleState::Unstarted => {
                self.state = LifecycleState::Started;
                self.address = Some(address.to_owned());
                Ok(())
            },
            _ => Err(LifecycleError::AlreadyListening),
        }
    }

    /// Closes the live session for good. Succeeds exactly when the server is
    /// listening; otherwise the server is left unchanged and the caller is
    /// told no session is live.
    pub fn stop_listening(&mut self) -> (r: Result<(), LifecycleError>)
        ensures
            (final(self)@.state, r) == stop_step(old(self)@.state),
            r is Ok ==> final(self)@.address is None,
            r is Err ==> final(self)@.address == old(self)@.address,
            final(self).spec_handler() == old(self).spec_handler(),
    {
        match self.state {
            LifecycleState::Started => {
                self.state = LifecycleState::Stopped;
                self.address = None;
                Ok(())
            },
            _ => Err(LifecycleError::NotListening),
        }
    }

    /// Rolls a freshly opened session back because its address could not be
    /// bound: the server returns to `Unstarted` as if the start had never
    /// happened, and the error to report is returned.
    pub fn bind_failed(&mut self) -> (e: LifecycleError)
        ensures
            e == LifecycleError::Bind,
            final(self)@.state == bind_failed_step(old(self)@.state),
            old(self)@.state is Started ==> final(self)@.address is None,
            !(old(self)@.state is Started) ==> final(self)@.address == old(self)@.address,
            final(self).spec_handler() == old(self).spec_handler(),
    {
        if let LifecycleState::Started = self.state {
            self.state = LifecycleState::Unstarted;
            self.address = None;
        }
        LifecycleError::Bind
    }

    /// Whether a session is live.
    pub fn is_listening(&self) -> (b: bool)
        ensures
            b == (self@.state is Started),
    {
        match self.state {
            LifecycleState::Started => true,
            _ => false,
        }
    }

    /// The handler, for dispatching accepted connections.
    pub fn handler(&self) -> (h: &H)
        ensures
            *h == self.spec_handler(),
    {
        &self.handler
    }
}

} // verus!
