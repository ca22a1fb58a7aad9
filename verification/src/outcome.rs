//! The result delivered for one request, and the error taxonomy.

use vstd::prelude::*;

verus! {

/// Why a request did not produce a successful response.
#[derive(Clone, Copy, Debug, PartialEq, Eq, Structural)]
pub enum ErrorKind {
    /// The backend rejected or could not complete this one operation.
    /// Recoverable: only the requester that issued it is affected.
    QueryFailed,
    /// The exclusive backend session is permanently unusable. Every request
    /// dequeued from then on receives this error until the process is
    /// restarted or an external supervisor re-establishes the session.
    BackendUnavailable,
    /// The work queue is at capacity and the rejecting admission policy is in
    /// force. Surfaced immediately to the submitting caller.
    Overloaded,
}

/// The one result produced for one accepted request.
#[derive(Debug)]
pub enum Outcome {
    /// The backend completed the operation; the payload is the response body.
    Success(String),
    /// The operation produced no response; the kind says why.
    Failure(ErrorKind),
}

impl Outcome {
    /// True when this outcome carries a response body.
    pub fn is_success(&self) -> (r: bool)
        ensures
            r == (self is Success),
    {
        match self {
            Outcome::Success(_) => true,
            Outcome::Failure(_) => false,
        }
    }
}

/// What became of an outcome at the reply slot.
///
/// Each request's reply slot is single-use: written at most once by the
/// worker, read at most once by the caller that is awaiting it.
#[derive(Clone, Copy, Debug, PartialEq, Eq, Structural)]
pub enum Delivery {
    /// The caller was still waiting and received the outcome.
    Delivered,
    /// The caller had abandoned its reply slot. The outcome is discarded;
    /// this is a normal, non-fatal event and is never surfaced as an error.
    DiscardedCallerGone,
}

/// Decides what a failed or successful write into a reply slot means.
///
/// A missing reader (the caller timed out or was cancelled upstream) is a
/// harmless event: the outcome is dropped and the worker moves on. It is
/// never treated as a fault of the worker or of the process.
pub fn delivery_disposition(reader_present: bool) -> (d: Delivery)
    ensures
        reader_present ==> d == Delivery::Delivered,
        !reader_present ==> d == Delivery::DiscardedCallerGone,
{
    if reader_present {
        Delivery::Delivered
    } else {
        Delivery::DiscardedCallerGone
    }
}

} // verus!
