//! The dispatcher / work-queue / worker system as one verified state machine.
//!
//! [`Core`] models the whole multiplexing core: the bounded FIFO work queue
//! that connects many submitting callers to the single worker, the worker's
//! phase, and the backend session state. A ghost [`History`] records every
//! admission and every completion, so the system's laws can be stated over
//! the full lifetime of the machine:
//!
//! - requests complete in admission order ([`lemma_fifo_order`]);
//! - at most one backend operation is ever in flight
//!   ([`lemma_single_operation_in_flight`]);
//! - every accepted request sits at exactly one station — queued, in flight,
//!   or completed with exactly one recorded outcome
//!   ([`lemma_exactly_one_outcome`]);
//! - a submission against a full queue changes nothing and tells the caller
//!   to wait ([`lemma_backpressure`]);
//! - one failed operation leaves the machine ready to serve the next request
//!   ([`lemma_resilience`]);
//! - a closed backend session stays closed under every transition
//!   ([`lemma_terminal_closed`]).
//!
//! Admission policy: `submit` suspends the caller rather than dropping work —
//! a full queue answers [`SubmitResult::QueueFull`], and the asynchronous
//! shell parks the caller until the worker frees a slot. The alternative,
//! immediately rejecting, is available as [`Core::submit_or_reject`].

use vstd::prelude::*;

use crate::outcome::ErrorKind;
use crate::outcome::Outcome;
use crate::worker::Action;
use crate::worker::BackendState;
use crate::worker::ExecEvent;
use crate::worker::action_of;
use crate::worker::backend_after_event;
use crate::worker::classify;
use crate::worker::outcome_of_event;
use crate::worker::unavailable_outcome;

verus! {

/// One queued unit of work: the caller's query paired with the ticket that
/// correlates its reply.
#[derive(Debug)]
pub struct Envelope {
    /// The ticket issued at admission; unique over the life of the machine.
    pub ticket: u64,
    /// The caller's opaque query payload.
    pub query: String,
}

/// The worker's phase: it is always in exactly one of these.
#[derive(Clone, Copy, Debug, PartialEq, Eq, Structural)]
pub enum WorkerPhase {
    /// Waiting for the next envelope.
    Idle,
    /// Executing the operation for the envelope with this ticket.
    Processing(u64),
}

/// What the dispatcher tells a submitting caller.
#[derive(Clone, Copy, Debug, PartialEq, Eq, Structural)]
pub enum SubmitResult {
    /// The request was admitted under this ticket.
    Enqueued(u64),
    /// The queue is at capacity; the caller must wait for a free slot and
    /// submit again. Nothing was changed.
    QueueFull,
}

/// The ghost record of everything the machine has done.
pub struct History {
    /// Tickets in admission order.
    pub accepted: Seq<u64>,
    /// Tickets in completion order.
    pub completed: Seq<u64>,
    /// The one outcome recorded for each completed ticket.
    pub outcomes: Map<u64, Outcome>,
}

/// The tickets of a queue segment, in order.
pub open spec fn tickets_of(q: Seq<Envelope>) -> Seq<u64> {
    q.map_values(|e: Envelope| e.ticket)
}

/// Strictly increasing: later entries are strictly larger.
pub open spec fn strictly_inc(s: Seq<u64>) -> bool {
    forall|i: int, j: int| 0 <= i < j < s.len() ==> s[i] < s[j]
}

/// The multiplexing core: bounded FIFO queue, worker phase, backend state.
pub struct Core {
    /// Queue capacity C; admissions beyond it are held back.
    pub capacity: usize,
    /// The pending envelopes, oldest first.
    pub queue: Vec<Envelope>,
    /// The backend session state.
    pub backend: BackendState,
    /// The worker's phase.
    pub phase: WorkerPhase,
    /// The ticket the next admission will receive.
    pub next_ticket: u64,
    /// The ghost admission/completion record.
    pub history: Ghost<History>,
}

impl Core {
    /// The tickets pending in the queue, oldest first.
    pub open spec fn queue_tickets(self) -> Seq<u64> {
        tickets_of(self.queue@)
    }

    /// The ticket in flight, as a sequence of length zero or one.
    pub open spec fn inflight(self) -> Seq<u64> {
        match self.phase {
            WorkerPhase::Idle => Seq::<u64>::empty(),
            WorkerPhase::Processing(t) => seq![t],
        }
    }

    /// The ticket in flight; meaningful only while the phase is `Processing`.
    pub open spec fn inflight_ticket(self) -> u64 {
        match self.phase {
            WorkerPhase::Idle => 0,
            WorkerPhase::Processing(t) => t,
        }
    }

    /// Well-formedness: the queue respects its bound, and the ghost history
    /// partitions the accepted tickets into completed, in flight and queued —
    /// in that order — with all tickets unique and below the allocator.
    pub open spec fn wf(self) -> bool {
        &&& 1 <= self.capacity
        &&& self.queue@.len() <= self.capacity
        &&& self.history@.accepted == self.history@.completed + self.inflight()
            + self.queue_tickets()
        &&& strictly_inc(self.history@.accepted)
        &&& forall|i: int|
            0 <= i < self.history@.accepted.len() ==> self.history@.accepted[i] < self.next_ticket
        &&& forall|t: u64|
            self.history@.outcomes.dom().contains(t) <==> self.history@.completed.contains(t)
    }
}

/// Both states have the same observable and ghost content.
pub open spec fn unchanged(pre: Core, post: Core) -> bool {
    &&& post.capacity == pre.capacity
    &&& post.queue@ == pre.queue@
    &&& post.backend == pre.backend
    &&& post.phase == pre.phase
    &&& post.next_ticket == pre.next_ticket
    &&& post.history@ == pre.history@
}

/// The `submit` transition: a full queue admits nothing and changes nothing;
/// otherwise the query is appended under a fresh ticket.
pub open spec fn submit_rel(pre: Core, post: Core, query: String, r: SubmitResult) -> bool {
    if pre.queue@.len() >= pre.capacity {
        &&& r == SubmitResult::QueueFull
        &&& unchanged(pre, post)
    } else {
        &&& r == SubmitResult::Enqueued(pre.next_ticket)
        &&& post.queue@ == pre.queue@.push(Envelope { ticket: pre.next_ticket, query })
        &&& post.next_ticket == pre.next_ticket + 1
        &&& post.history@.accepted == pre.history@.accepted.push(pre.next_ticket)
        &&& post.history@.completed == pre.history@.completed
        &&& post.history@.outcomes == pre.history@.outcomes
        &&& post.capacity == pre.capacity
        &&& post.backend == pre.backend
        &&& post.phase == pre.phase
    }
}

/// The `worker_take` transition: an idle worker dequeues the oldest envelope,
/// if any, and begins processing it.
pub open spec fn take_rel(pre: Core, post: Core, r: Option<Envelope>) -> bool {
    &&& pre.phase == WorkerPhase::Idle
    &&& if pre.queue@.len() == 0 {
        &&& r == None::<Envelope>
        &&& unchanged(pre, post)
    } else {
        &&& r == Some(pre.queue@[0])
        &&& post.queue@ == pre.queue@.drop_first()
        &&& post.phase == WorkerPhase::Processing(pre.queue@[0].ticket)
        &&& post.capacity == pre.capacity
        &&& post.backend == pre.backend
        &&& post.next_ticket == pre.next_ticket
        &&& post.history@ == pre.history@
    }
}

/// The `worker_finish` transition: the in-flight operation ended with
/// `event`; its outcome is recorded and the worker returns to idle. Only an
/// open session executes, and only the loss of the session closes it.
pub open spec fn finish_rel(pre: Core, post: Core, event: ExecEvent, out: Outcome) -> bool {
    &&& pre.phase is Processing
    &&& pre.backend == BackendState::Open
    &&& out == outcome_of_event(event)
    &&& post.backend == backend_after_event(event)
    &&& post.phase == WorkerPhase::Idle
    &&& post.queue@ == pre.queue@
    &&& post.capacity == pre.capacity
    &&& post.next_ticket == pre.next_ticket
    &&& post.history@.accepted == pre.history@.accepted
    &&& post.history@.completed == pre.history@.completed.push(pre.inflight_ticket())
    &&& post.history@.outcomes == pre.history@.outcomes.insert(pre.inflight_ticket(), out)
}

/// The `worker_reject_unavailable` transition: with the session closed, the
/// dequeued request is failed at once, with no operation attempted.
pub open spec fn reject_rel(pre: Core, post: Core, out: Outcome) -> bool {
    &&& pre.phase is Processing
    &&& pre.backend == BackendState::Closed
    &&& out == Outcome::Failure(ErrorKind::BackendUnavailable)
    &&& post.backend == BackendState::Closed
    &&& post.phase == WorkerPhase::Idle
    &&& post.queue@ == pre.queue@
    &&& post.capacity == pre.capacity
    &&& post.next_ticket == pre.next_ticket
    &&& post.history@.accepted == pre.history@.accepted
    &&& post.history@.completed == pre.history@.completed.push(pre.inflight_ticket())
    &&& post.history@.outcomes == pre.history@.outcomes.insert(pre.inflight_ticket(), out)
}

/// Any single transition of the machine.
pub open spec fn step(pre: Core, post: Core) -> bool {
    ||| exists|query: String, r: SubmitResult| submit_rel(pre, post, query, r)
    ||| exists|r: Option<Envelope>| take_rel(pre, post, r)
    ||| exists|event: ExecEvent, out: Outcome| finish_rel(pre, post, event, out)
    ||| exists|out: Outcome| reject_rel(pre, post, out)
}

impl Core {
    /// A fresh machine: empty queue, idle worker, open session, no history.
    pub fn new(capacity: usize) -> (r: Core)
        requires
            1 <= capacity,
        ensures
            r.wf(),
            r.capacity == capacity,
            r.queue@ == Seq::<Envelope>::empty(),
            r.backend == BackendState::Open,
            r.phase == WorkerPhase::Idle,
            r.next_ticket == 0,
            r.history@.accepted == Seq::<u64>::empty(),
            r.history@.completed == Seq::<u64>::empty(),
            r.history@.outcomes == Map::<u64, Outcome>::empty(),
    {
        let r = Core {
            capacity,
            queue: Vec::new(),
            backend: BackendState::Open,
            phase: WorkerPhase::Idle,
            next_ticket: 0,
            history: Ghost(
                History {
                    accepted: Seq::<u64>::empty(),
                    completed: Seq::<u64>::empty(),
                    outcomes: Map::<u64, Outcome>::empty(),
                },
            ),
        };
        proof {
            assert(r.queue_tickets() =~= Seq::<u64>::empty());
            assert(r.history@.accepted =~= r.history@.completed + r.inflight()
                + r.queue_tickets());
        }
        r
    }

    /// Admit one request, or report that the queue is full.
    ///
    /// With the suspending policy, `QueueFull` is the signal on which the
    /// caller parks; nothing is dropped and nothing changes until a slot
    /// frees. An admitted request receives the next ticket in order.
    pub fn submit(&mut self, query: String) -> (r: SubmitResult)
        requires
            old(self).wf(),
            old(self).next_ticket < u64::MAX,
        ensures
            final(self).wf(),
            submit_rel(*old(self), *final(self), query, r),
    {
        if self.queue.len() >= self.capacity {
            SubmitResult::QueueFull
        } else {
            let t = self.next_ticket;
            let ghost q_snap: String = query;
            self.queue.push(Envelope { ticket: t, query });
            self.next_ticket = t + 1;
            self.history = Ghost(
                History {
                    accepted: self.history@.accepted.push(t),
                    completed: self.history@.completed,
                    outcomes: self.history@.outcomes,
                },
            );
            proof {
                let pre = *old(self);
                assert(self.queue@ == pre.queue@.push(Envelope { ticket: t, query: q_snap }));
                assert(self.queue_tickets() =~= pre.queue_tickets().push(t));
                assert(self.history@.accepted =~= self.history@.completed + self.inflight()
                    + self.queue_tickets());
            }
            SubmitResult::Enqueued(t)
        }
    }

    /// Admit one request, or reject it immediately with `Overloaded`.
    ///
    /// The alternative admission policy: instead of holding the caller back,
    /// a full queue answers with the `Overloaded` error at once.
    pub fn submit_or_reject(&mut self, query: String) -> (r: Result<u64, ErrorKind>)
        requires
            old(self).wf(),
            old(self).next_ticket < u64::MAX,
        ensures
            final(self).wf(),
            old(self).queue@.len() >= old(self).capacity ==> r == Err::<u64, ErrorKind>(
                ErrorKind::Overloaded,
            ) && unchanged(*old(self), *final(self)),
            old(self).queue@.len() < old(self).capacity ==> r == Ok::<u64, ErrorKind>(
                old(self).next_ticket,
            ) && submit_rel(*old(self), *final(self), query, SubmitResult::Enqueued(
                old(self).next_ticket,
            )),
    {
        match self.submit(query) {
            SubmitResult::Enqueued(t) => Ok(t),
            SubmitResult::QueueFull => Err(ErrorKind::Overloaded),
        }
    }

    /// Dequeue the oldest pending envelope and begin processing it.
    ///
    /// Only an idle worker may take: this is the structural guarantee that at
    /// most one operation is ever in flight.
    pub fn worker_take(&mut self) -> (r: Option<Envelope>)
        requires
            old(self).wf(),
            old(self).phase == WorkerPhase::Idle,
        ensures
            final(self).wf(),
            take_rel(*old(self), *final(self), r),
    {
        if self.queue.len() == 0 {
            None
        } else {
            let env = self.queue.remove(0);
            self.phase = WorkerPhase::Processing(env.ticket);
            proof {
                let pre = *old(self);
                assert(self.queue@ =~= pre.queue@.drop_first());
                assert(self.queue_tickets() =~= pre.queue_tickets().drop_first());
                assert(pre.queue_tickets()[0] == env.ticket);
                assert(self.history@.accepted =~= self.history@.completed + self.inflight()
                    + self.queue_tickets());
            }
            Some(env)
        }
    }

    /// Record the end of the in-flight operation.
    ///
    /// The event is classified exactly as [`classify`] says: a completed
    /// operation yields the response, a per-operation failure yields
    /// `QueryFailed` and leaves the session open, and a lost session yields
    /// `BackendUnavailable` and closes it. The worker returns to idle in
    /// every case; no event stops it.
    pub fn worker_finish(&mut self, event: ExecEvent) -> (out: Outcome)
        requires
            old(self).wf(),
            old(self).phase is Processing,
            old(self).backend == BackendState::Open,
        ensures
            final(self).wf(),
            finish_rel(*old(self), *final(self), event, out),
    {
        let ghost t: u64 = self.inflight_ticket();
        let ghost event_snap: ExecEvent = event;
        let (out, next_backend) = classify(event);
        self.backend = next_backend;
        self.phase = WorkerPhase::Idle;
        self.history = Ghost(
            History {
                accepted: self.history@.accepted,
                completed: self.history@.completed.push(t),
                outcomes: self.history@.outcomes.insert(t, out),
            },
        );
        proof {
            lemma_complete_wf(*old(self), *self, out);
        }
        out
    }

    /// Fail the in-flight request at once because the session is closed.
    ///
    /// No operation is attempted; the request's one outcome is
    /// `BackendUnavailable`, and the session stays closed.
    pub fn worker_reject_unavailable(&mut self) -> (out: Outcome)
        requires
            old(self).wf(),
            old(self).phase is Processing,
            old(self).backend == BackendState::Closed,
        ensures
            final(self).wf(),
            reject_rel(*old(self), *final(self), out),
    {
        let ghost t: u64 = self.inflight_ticket();
        let out = unavailable_outcome();
        self.phase = WorkerPhase::Idle;
        self.history = Ghost(
            History {
                accepted: self.history@.accepted,
                completed: self.history@.completed.push(t),
                outcomes: self.history@.outcomes.insert(t, out),
            },
        );
        proof {
            lemma_complete_wf(*old(self), *self, out);
        }
        out
    }
}

/// Completing the in-flight ticket preserves well-formedness: the ticket
/// moves from the in-flight station to the end of the completion history,
/// and its outcome is recorded.
proof fn lemma_complete_wf(pre: Core, post: Core, out: Outcome)
    requires
        pre.wf(),
        pre.phase is Processing,
        post.phase == WorkerPhase::Idle,
        post.queue@ == pre.queue@,
        post.capacity == pre.capacity,
        post.next_ticket == pre.next_ticket,
        post.history@.accepted == pre.history@.accepted,
        post.history@.completed == pre.history@.completed.push(pre.inflight_ticket()),
        post.history@.outcomes == pre.history@.outcomes.insert(pre.inflight_ticket(), out),
    ensures
        post.wf(),
{
    let t = pre.inflight_ticket();
    assert(pre.inflight() =~= seq![t]);
    assert(post.queue_tickets() =~= pre.queue_tickets());
    assert(post.history@.accepted =~= post.history@.completed + post.inflight()
        + post.queue_tickets());
    assert forall|x: u64|
        post.history@.outcomes.dom().contains(x) <==> post.history@.completed.contains(
            x,
        ) by {
        if post.history@.outcomes.dom().contains(x) {
            if x == t {
                assert(post.history@.completed[post.history@.completed.len() - 1] == x);
            } else {
                assert(pre.history@.completed.contains(x));
                let i = choose|i: int|
                    0 <= i < pre.history@.completed.len() && pre.history@.completed[i] == x;
                assert(post.history@.completed[i] == x);
            }
        }
        if post.history@.completed.contains(x) {
            let i = choose|i: int|
                0 <= i < post.history@.completed.len() && post.history@.completed[i] == x;
            if i < pre.history@.completed.len() {
                assert(pre.history@.completed[i] == x);
                assert(pre.history@.completed.contains(x));
            } else {
                assert(x == t);
            }
        }
    }
}

/// FIFO law: requests complete in admission order. In every well-formed
/// state, the completion history is exactly the leading prefix of the
/// admission history — no request ever overtakes an earlier one.
pub proof fn lemma_fifo_order(s: Core)
    requires
        s.wf(),
    ensures
        s.history@.completed.len() <= s.history@.accepted.len(),
        s.history@.completed == s.history@.accepted.take(s.history@.completed.len() as int),
{
    assert(s.history@.completed =~= s.history@.accepted.take(
        s.history@.completed.len() as int,
    ));
}

/// Single-ownership law: at any instant at most one backend operation is in
/// flight. The worker's phase is the only source of in-flight work.
pub proof fn lemma_single_operation_in_flight(s: Core)
    requires
        s.wf(),
    ensures
        s.inflight().len() <= 1,
        s.phase == WorkerPhase::Idle ==> s.inflight().len() == 0,
{
}

/// Distinct entries: a strictly increasing sequence holds no value twice.
proof fn lemma_strictly_inc_distinct(s: Seq<u64>, i: int, j: int)
    requires
        strictly_inc(s),
        0 <= i < s.len(),
        0 <= j < s.len(),
        i != j,
    ensures
        s[i] != s[j],
{
}

/// Exactly-one-outcome law: every accepted request sits at exactly one
/// station — still queued, in flight, or completed — and an outcome is
/// recorded for it exactly when it has completed. The outcome record is a
/// map, so a completed request has exactly one outcome.
pub proof fn lemma_exactly_one_outcome(s: Core, t: u64)
    requires
        s.wf(),
        s.history@.accepted.contains(t),
    ensures
        ({
            let done = s.history@.completed.contains(t);
            let in_flight = s.inflight().contains(t);
            let queued = s.queue_tickets().contains(t);
            &&& done || in_flight || queued
            &&& !(done && in_flight)
            &&& !(done && queued)
            &&& !(in_flight && queued)
        }),
        s.history@.completed.contains(t) <==> s.history@.outcomes.dom().contains(t),
{
    let acc = s.history@.accepted;
    let done_s = s.history@.completed;
    let fly_s = s.inflight();
    let que_s = s.queue_tickets();
    let n_done = done_s.len() as int;
    let n_fly = fly_s.len() as int;

    // The accepted index of t determines its station.
    let k = choose|k: int| 0 <= k < acc.len() && acc[k] == t;
    if k < n_done {
        assert(done_s[k] == t);
        assert(done_s.contains(t));
    } else if k < n_done + n_fly {
        assert(fly_s[k - n_done] == t);
        assert(fly_s.contains(t));
    } else {
        assert(que_s[k - n_done - n_fly] == t);
        assert(que_s.contains(t));
    }

    // Two different stations would give t two different accepted indices,
    // which a strictly increasing sequence cannot have.
    if done_s.contains(t) && fly_s.contains(t) {
        let i = choose|i: int| 0 <= i < done_s.len() && done_s[i] == t;
        let j = choose|j: int| 0 <= j < fly_s.len() && fly_s[j] == t;
        assert(acc[i] == t);
        assert(acc[n_done + j] == t);
        lemma_strictly_inc_distinct(acc, i, n_done + j);
    }
    if done_s.contains(t) && que_s.contains(t) {
        let i = choose|i: int| 0 <= i < done_s.len() && done_s[i] == t;
        let j = choose|j: int| 0 <= j < que_s.len() && que_s[j] == t;
        assert(acc[i] == t);
        assert(acc[n_done + n_fly + j] == t);
        lemma_strictly_inc_distinct(acc, i, n_done + n_fly + j);
    }
    if fly_s.contains(t) && que_s.contains(t) {
        let i = choose|i: int| 0 <= i < fly_s.len() && fly_s[i] == t;
        let j = choose|j: int| 0 <= j < que_s.len() && que_s[j] == t;
        assert(acc[n_done + i] == t);
        assert(acc[n_done + n_fly + j] == t);
        lemma_strictly_inc_distinct(acc, n_done + i, n_done + n_fly + j);
    }
}

/// Backpressure law: a submission while the queue holds its full capacity of
/// pending envelopes admits nothing, changes nothing, and answers with the
/// hold-back signal; the caller proceeds only once a slot frees.
pub proof fn lemma_backpressure(pre: Core, post: Core, query: String, r: SubmitResult)
    requires
        pre.wf(),
        submit_rel(pre, post, query, r),
        pre.queue@.len() == pre.capacity,
    ensures
        r == SubmitResult::QueueFull,
        unchanged(pre, post),
{
}

/// Resilience law: one failed operation is confined to its one requester.
/// After a `QueryFailed` completion the session is still open, the worker is
/// idle, every pending envelope is untouched, and the next dequeued request
/// is executed normally.
pub proof fn lemma_resilience(pre: Core, post: Core, event: ExecEvent, out: Outcome)
    requires
        pre.wf(),
        finish_rel(pre, post, event, out),
        event == ExecEvent::Failed,
    ensures
        out == Outcome::Failure(ErrorKind::QueryFailed),
        post.backend == BackendState::Open,
        post.phase == WorkerPhase::Idle,
        post.queue@ == pre.queue@,
        action_of(post.backend) == Action::Execute,
{
}

/// Terminal law: once the backend session is closed, every transition of the
/// machine leaves it closed, and every dequeued request is rejected at once
/// — no operation is ever attempted against the lost session.
pub proof fn lemma_terminal_closed(pre: Core, post: Core)
    requires
        pre.backend == BackendState::Closed,
        step(pre, post),
    ensures
        post.backend == BackendState::Closed,
        action_of(pre.backend) == Action::RejectUnavailable,
{
    if exists|query: String, r: SubmitResult| submit_rel(pre, post, query, r) {
        let (query, r) = choose|query: String, r: SubmitResult| submit_rel(pre, post, query, r);
        assert(post.backend == pre.backend);
    } else if exists|r: Option<Envelope>| take_rel(pre, post, r) {
        let r = choose|r: Option<Envelope>| take_rel(pre, post, r);
        assert(post.backend == pre.backend);
    } else if exists|event: ExecEvent, out: Outcome| finish_rel(pre, post, event, out) {
        // An operation finishes only on an open session; the session is
        // closed, so this transition cannot have happened.
        let (event, out) = choose|event: ExecEvent, out: Outcome|
            finish_rel(pre, post, event, out);
        assert(false);
    } else {
        let out = choose|out: Outcome| reject_rel(pre, post, out);
        assert(post.backend == BackendState::Closed);
    }
}

} // verus!
