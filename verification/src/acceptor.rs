//! The accept loop's decision rule.
//!
//! A listening session polls a non-blocking socket. Each poll ends in one of
//! three events, and the loop reacts the same way every time: a pending
//! connection is dispatched to its own concurrent unit, an empty poll is the
//! one moment the shutdown signal is consulted, and any other accept error
//! is fatal to the loop. The embedding program performs the polling and the
//! dispatching; the rule itself stands here.

use vstd::prelude::*;

verus! {

/// What one poll of the listening socket produced.
#[derive(Clone, Copy, Debug, PartialEq, Eq, Structural)]
pub enum AcceptEvent {
    /// A connection is pending.
    Accepted,
    /// No connection is pending.
    WouldBlock,
    /// The socket failed in some other way.
    Failed,
}

/// What the accept loop does next.
#[derive(Clone, Copy, Debug, PartialEq, Eq, Structural)]
pub enum AcceptDecision {
    /// Hand the pending connection to a new concurrent unit and poll again
    /// at once, without waiting for that unit.
    Dispatch,
    /// Nothing to do; poll again.
    ContinuePolling,
    /// The shutdown signal is raised: close the listening socket and return.
    ShutDown,
    /// Stop the loop and surface the socket's error to whatever observes the
    /// loop's termination.
    Terminate,
}

/// The loop's reaction to one poll: a pending connection is always
/// dispatched, the shutdown signal is checked only on an empty poll, and any
/// other socket error ends the loop.
pub open spec fn accept_decision(event: AcceptEvent, shutdown_raised: bool) -> AcceptDecision {
    match event {
        AcceptEvent::Accepted => AcceptDecision::Dispatch,
        AcceptEvent::WouldBlock => if shutdown_raised {
            AcceptDecision::ShutDown
        } else {
            AcceptDecision::ContinuePolling
        },
        AcceptEvent::Failed => AcceptDecision::Terminate,
    }
}

/// Decides the loop's next step from the poll's event and the state of the
/// shutdown signal at that moment.
pub fn acceptor_step(event: AcceptEvent, shutdown_raised: bool) -> (d: AcceptDecision)
    ensures
        d == accept_decision(event, shutdown_raised),
{
    match event {
        AcceptEvent::Accepted => AcceptDecision::Dispatch,
        AcceptEvent::WouldBlock => if shutdown_raised {
            AcceptDecision::ShutDown
        } else {
            AcceptDecision::ContinuePolling
        },
        AcceptEvent::Failed => AcceptDecision::Terminate,
    }
}

} // verus!
