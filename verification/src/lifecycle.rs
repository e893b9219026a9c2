//! The start/stop state machine that guards a server's listening session.

use vstd::prelude::*;

verus! {

/// The lifecycle of one server instance: created `Unstarted`, listening once a
/// start succeeds, and `Stopped` for good after a shutdown (no restart).
#[derive(Clone, Copy, Debug, PartialEq, Eq, Structural)]
pub enum LifecycleState {
    Unstarted,
    Started,
    Stopped,
}

/// Errors returned to callers that misuse the lifecycle or whose bind failed.
/// They are returned as values; none of them aborts the process.
#[derive(Clone, Copy, Debug, PartialEq, Eq, Structural)]
pub enum LifecycleError {
    /// A start was requested while a session is live or after a shutdown.
    AlreadyListening,
    /// A stop was requested while no session is live.
    NotListening,
    /// A route registration was requested after the first start.
    RoutesLocked,
    /// The listening socket could not be bound.
    Bind,
}

/// What a request to start listening does to the state: only an `Unstarted`
/// server may start; any other state is refused and left unchanged.
pub open spec fn start_step(s: LifecycleState) -> (LifecycleState, Result<(), LifecycleError>) {
    if s is Unstarted {
        (LifecycleState::Started, Ok(()))
    } else {
        (s, Err(LifecycleError::AlreadyListening))
    }
}

/// What a request to stop listening does to the state: only a `Started`
/// server may stop; any other state is refused and left unchanged.
pub open spec fn stop_step(s: LifecycleState) -> (LifecycleState, Result<(), LifecycleError>) {
    if s is Started {
        (LifecycleState::Stopped, Ok(()))
    } else {
        (s, Err(LifecycleError::NotListening))
    }
}

/// A failed bind rolls a freshly started session back to `Unstarted`, leaving
/// the server as it was before the start was attempted; in any other state
/// nothing changes.
pub open spec fn bind_failed_step(s: LifecycleState) -> LifecycleState {
    if s is Started {
        LifecycleState::Unstarted
    } else {
        s
    }
}

/// Route registration is open only before the first start.
pub open spec fn registration_open(s: LifecycleState) -> bool {
    s is Unstarted
}

/// Starting twice without an intervening stop: the first start succeeds, the
/// second is refused with `AlreadyListening`, and the refusal leaves the
/// running session untouched.
pub proof fn lemma_second_start_refused(s: LifecycleState)
    requires
        s is Unstarted,
    ensures
        ({
            let (s1, r1) = start_step(s);
            let (s2, r2) = start_step(s1);
            &&& r1 == Ok::<(), LifecycleError>(())
            &&& s1 is Started
            &&& r2 == Err::<(), LifecycleError>(LifecycleError::AlreadyListening)
            &&& s2 == s1
        }),
{
}

/// Stopping while no session is live — before any start, or again after a
/// prior stop — is refused with `NotListening` and changes nothing. A prior
/// stop leaves the state `Stopped`, which this lemma covers as well.
pub proof fn lemma_stop_without_session_refused(s: LifecycleState)
    requires
        !(s is Started),
    ensures
        ({
            let (s1, r1) = stop_step(s);
            &&& r1 == Err::<(), LifecycleError>(LifecycleError::NotListening)
            &&& s1 == s
        }),
{
}

/// A stopped server is stopped for good: after a successful stop, a second
/// stop is refused and a new start is refused too.
pub proof fn lemma_stopped_is_terminal(s: LifecycleState)
    requires
        s is Started,
    ensures
        ({
            let (s1, r1) = stop_step(s);
            &&& r1 == Ok::<(), LifecycleError>(())
            &&& s1 is Stopped
            &&& stop_step(s1).1 == Err::<(), LifecycleError>(LifecycleError::NotListening)
            &&& start_step(s1).1 == Err::<(), LifecycleError>(LifecycleError::AlreadyListening)
        }),
{
}

} // verus!
