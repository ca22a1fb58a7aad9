//! The worker's decision logic.
//!
//! The worker is the sole owner of the backend session. For every request it
//! dequeues it makes exactly two decisions, both verified here: whether the
//! operation may be attempted at all ([`plan`]), and what a backend event
//! means for the requester and for the session ([`classify`]). The
//! asynchronous shell performs the actual backend call between the two.

use vstd::prelude::*;

use crate::outcome::ErrorKind;
use crate::outcome::Outcome;

verus! {

/// The lifecycle state of the exclusive backend session.
#[derive(Clone, Copy, Debug, PartialEq, Eq, Structural)]
pub enum BackendState {
    /// The session is live: operations may be attempted.
    Open,
    /// The session is permanently unusable. This state is terminal: no
    /// transition of this crate leaves it.
    Closed,
}

/// What the worker does with a dequeued request.
#[derive(Clone, Copy, Debug, PartialEq, Eq, Structural)]
pub enum Action {
    /// Execute the operation against the backend session.
    Execute,
    /// Do not attempt an operation: fail the request immediately with
    /// [`ErrorKind::BackendUnavailable`].
    RejectUnavailable,
}

/// What happened when an operation was executed against the backend.
#[derive(Debug)]
pub enum ExecEvent {
    /// The operation completed; the payload is the response body.
    Completed(String),
    /// The backend rejected or could not complete this one operation, but the
    /// session itself is still usable.
    Failed,
    /// The session was lost (for instance, closed by the remote end) and
    /// cannot be used again.
    ConnectionLost,
}

/// The action a dequeued request gets under each session state.
pub open spec fn action_of(backend: BackendState) -> Action {
    match backend {
        BackendState::Open => Action::Execute,
        BackendState::Closed => Action::RejectUnavailable,
    }
}

/// Decides whether a dequeued request may be executed.
///
/// While the session is open every request is executed; once it is closed no
/// operation is ever attempted again and every request is rejected at once.
pub fn plan(backend: &BackendState) -> (a: Action)
    ensures
        a == action_of(*backend),
{
    match backend {
        BackendState::Open => Action::Execute,
        BackendState::Closed => Action::RejectUnavailable,
    }
}

/// The outcome that [`classify`] assigns to an event.
pub open spec fn outcome_of_event(event: ExecEvent) -> Outcome {
    match event {
        ExecEvent::Completed(body) => Outcome::Success(body),
        ExecEvent::Failed => Outcome::Failure(ErrorKind::QueryFailed),
        ExecEvent::ConnectionLost => Outcome::Failure(ErrorKind::BackendUnavailable),
    }
}

/// The backend state that [`classify`] leaves behind after an event.
pub open spec fn backend_after_event(event: ExecEvent) -> BackendState {
    match event {
        ExecEvent::ConnectionLost => BackendState::Closed,
        _ => BackendState::Open,
    }
}

/// Classifies one backend event into the requester's outcome and the next
/// session state.
///
/// A per-operation failure is converted into a [`ErrorKind::QueryFailed`]
/// outcome for that one requester and leaves the session open, so subsequent
/// requests are still served. Only the loss of the session itself closes it.
/// No event makes the worker fail: every event has an outcome.
pub fn classify(event: ExecEvent) -> (r: (Outcome, BackendState))
    ensures
        r.0 == outcome_of_event(event),
        r.1 == backend_after_event(event),
{
    match event {
        ExecEvent::Completed(body) => (Outcome::Success(body), BackendState::Open),
        ExecEvent::Failed => (Outcome::Failure(ErrorKind::QueryFailed), BackendState::Open),
        ExecEvent::ConnectionLost => (
            Outcome::Failure(ErrorKind::BackendUnavailable),
            BackendState::Closed,
        ),
    }
}

/// The outcome of a request that was rejected without an attempted operation.
pub fn unavailable_outcome() -> (r: Outcome)
    ensures
        r == Outcome::Failure(ErrorKind::BackendUnavailable),
{
    Outcome::Failure(ErrorKind::BackendUnavailable)
}

} // verus!
