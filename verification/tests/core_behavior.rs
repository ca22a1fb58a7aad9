//! Behaviour of the multiplexing core: admission, ordering, backpressure and
//! failure handling, driven through concrete runs of the state machine.

use libreidp::outcome::Delivery;
use libreidp::outcome::ErrorKind;
use libreidp::outcome::Outcome;
use libreidp::outcome::delivery_disposition;
use libreidp::system::Core;
use libreidp::system::SubmitResult;
use libreidp::worker::Action;
use libreidp::worker::BackendState;
use libreidp::worker::ExecEvent;
use libreidp::worker::plan;

fn expect_success(out: Outcome) -> String {
    match out {
        Outcome::Success(body) => body,
        Outcome::Failure(kind) => panic!("expected success, got {:?}", kind),
    }
}

fn expect_failure(out: Outcome) -> ErrorKind {
    match out {
        Outcome::Success(body) => panic!("expected failure, got success {:?}", body),
        Outcome::Failure(kind) => kind,
    }
}

#[test]
fn one_healthy_request_succeeds() {
    let mut core = Core::new(8);
    let r = core.submit(String::from("lookup"));
    assert_eq!(r, SubmitResult::Enqueued(0));

    let env = core.worker_take().expect("one envelope is pending");
    assert_eq!(env.ticket, 0);
    assert_eq!(env.query, "lookup");
    assert_eq!(plan(&core.backend), Action::Execute);

    let out = core.worker_finish(ExecEvent::Completed(String::from("records")));
    assert_eq!(expect_success(out), "records");
    assert_eq!(core.backend, BackendState::Open);
}

#[test]
fn three_requests_complete_in_submission_order() {
    let mut core = Core::new(8);
    let ra = core.submit(String::from("a"));
    let rb = core.submit(String::from("b"));
    let rc = core.submit(String::from("c"));
    assert_eq!(ra, SubmitResult::Enqueued(0));
    assert_eq!(rb, SubmitResult::Enqueued(1));
    assert_eq!(rc, SubmitResult::Enqueued(2));

    let responses = ["A", "B", "C"];
    let mut delivered = Vec::new();
    for expected_ticket in 0..3u64 {
        let env = core.worker_take().expect("an envelope is pending");
        assert_eq!(env.ticket, expected_ticket);
        let out = core.worker_finish(ExecEvent::Completed(String::from(
            responses[expected_ticket as usize],
        )));
        delivered.push(expect_success(out));
    }
    assert_eq!(delivered, vec!["A", "B", "C"]);
}

#[test]
fn full_queue_holds_back_submission_until_space_frees() {
    let capacity = 3usize;
    let mut core = Core::new(capacity);
    for i in 0..capacity as u64 {
        assert_eq!(core.submit(String::from("q")), SubmitResult::Enqueued(i));
    }
    // The queue holds C envelopes: one more submission is held back, and
    // nothing changes.
    assert_eq!(core.submit(String::from("late")), SubmitResult::QueueFull);
    assert_eq!(core.queue.len(), capacity);

    // The worker frees one slot; the held-back submission now proceeds.
    let env = core.worker_take().expect("queue is full");
    assert_eq!(env.ticket, 0);
    let r = core.submit(String::from("late"));
    assert_eq!(r, SubmitResult::Enqueued(capacity as u64));
}

#[test]
fn rejecting_policy_answers_overloaded_when_full() {
    let mut core = Core::new(1);
    assert_eq!(core.submit_or_reject(String::from("first")), Ok(0));
    assert_eq!(
        core.submit_or_reject(String::from("second")),
        Err(ErrorKind::Overloaded)
    );
    assert_eq!(core.queue.len(), 1);
}

#[test]
fn one_failed_query_does_not_stop_later_requests() {
    let mut core = Core::new(8);
    core.submit(String::from("bad"));
    core.submit(String::from("good"));

    let env = core.worker_take().expect("first envelope");
    assert_eq!(env.ticket, 0);
    let out = core.worker_finish(ExecEvent::Failed);
    assert_eq!(expect_failure(out), ErrorKind::QueryFailed);
    // The session is still open; the next request is served normally.
    assert_eq!(core.backend, BackendState::Open);
    let env = core.worker_take().expect("second envelope");
    assert_eq!(env.ticket, 1);
    assert_eq!(plan(&core.backend), Action::Execute);
    let out = core.worker_finish(ExecEvent::Completed(String::from("fine")));
    assert_eq!(expect_success(out), "fine");
}

#[test]
fn lost_session_fails_every_queued_request_without_an_operation() {
    let mut core = Core::new(8);
    for _ in 0..4 {
        core.submit(String::from("q"));
    }

    // The first operation loses the session.
    core.worker_take().expect("first envelope");
    let out = core.worker_finish(ExecEvent::ConnectionLost);
    assert_eq!(expect_failure(out), ErrorKind::BackendUnavailable);
    assert_eq!(core.backend, BackendState::Closed);

    // Every request still queued is rejected at once, with no operation.
    while let Some(_env) = core.worker_take() {
        assert_eq!(plan(&core.backend), Action::RejectUnavailable);
        let out = core.worker_reject_unavailable();
        assert_eq!(expect_failure(out), ErrorKind::BackendUnavailable);
        assert_eq!(core.backend, BackendState::Closed);
    }
    assert_eq!(core.queue.len(), 0);
}

#[test]
fn abandoned_caller_is_discarded_and_worker_continues() {
    let mut core = Core::new(8);
    core.submit(String::from("abandoned"));
    core.submit(String::from("waiting"));

    // The worker still executes the abandoned request to completion; the
    // outcome simply finds no reader and is dropped without error.
    core.worker_take().expect("abandoned envelope");
    let out = core.worker_finish(ExecEvent::Completed(String::from("wasted")));
    assert!(out.is_success());
    assert_eq!(delivery_disposition(false), Delivery::DiscardedCallerGone);

    // The next caller is served as if nothing had happened.
    let env = core.worker_take().expect("second envelope");
    assert_eq!(env.ticket, 1);
    let out = core.worker_finish(ExecEvent::Completed(String::from("served")));
    assert_eq!(expect_success(out), "served");
    assert_eq!(delivery_disposition(true), Delivery::Delivered);
}

#[test]
fn empty_queue_gives_the_idle_worker_nothing() {
    let mut core = Core::new(2);
    assert!(core.worker_take().is_none());
    assert_eq!(core.queue.len(), 0);
}
