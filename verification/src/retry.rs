//! The retry policy over dispatch outcomes.
//!
//! Only a retryable failure (a 502 or 503 downstream) is tried again,
//! after a fixed delay, up to a fixed attempt ceiling; every other
//! outcome ends the task at once. A successful response whose body is
//! the duplicate sentinel is a benign deduplication signal: a success,
//! but never reported as a forwarded event.

use vstd::prelude::*;

verus! {

/// The most attempts one forwarding task makes.
pub const MAX_ATTEMPTS: u64 = 5;

/// The fixed delay before a retried attempt, in milliseconds.
pub const RETRY_DELAY_MS: u64 = 500;

/// What one dispatch attempt came to.
#[derive(Clone)]
pub enum DispatchOutcome {
    /// A successful status; the response body's bytes.
    Success(Vec<u8>),
    /// An unsuccessful status other than 502 or 503; never retried.
    NonRetryableFailure(u16),
    /// A 502 or 503 downstream; retried while attempts remain.
    RetryableFailure,
    /// A transport-level failure; never retried.
    TransportError,
}

/// How a forwarding task ends.
pub enum TaskEnd {
    /// The event was forwarded; the response body, to report.
    Forwarded(Vec<u8>),
    /// The downstream had seen the event already; success, not
    /// reported as forwarded.
    DuplicateSuppressed,
    /// A non-retryable status ended the task.
    FailedStatus(u16),
    /// Every attempt came back retryable.
    RetriesExhausted,
    /// The attempt never reached the downstream.
    TransportFailed,
}

/// `TaskEnd` with the response body as a byte sequence.
pub enum TaskEndView {
    Forwarded(Seq<u8>),
    DuplicateSuppressed,
    FailedStatus(u16),
    RetriesExhausted,
    TransportFailed,
}

impl TaskEnd {
    pub open spec fn view_of(&self) -> TaskEndView {
        match self {
            TaskEnd::Forwarded(b) => TaskEndView::Forwarded(b@),
            TaskEnd::DuplicateSuppressed => TaskEndView::DuplicateSuppressed,
            TaskEnd::FailedStatus(st) => TaskEndView::FailedStatus(*st),
            TaskEnd::RetriesExhausted => TaskEndView::RetriesExhausted,
            TaskEnd::TransportFailed => TaskEndView::TransportFailed,
        }
    }
}

pub open spec fn opt_end_view(o: Option<TaskEnd>) -> Option<TaskEndView> {
    match o {
        Some(e) => Some(e.view_of()),
        None => None,
    }
}

/// What to do after one attempt.
pub enum RetryDecision {
    /// Sign afresh and try again after this many milliseconds.
    RetryAfterDelay(u64),
    /// The task is over.
    Finished(TaskEnd),
}

/// The bytes of the downstream's duplicate sentinel, `DUPLICATE_EVENT`.
/// The comparison is an exact match, nothing normalized.
pub open spec fn duplicate_sentinel() -> Seq<u8> {
    seq![68u8, 85u8, 80u8, 76u8, 73u8, 67u8, 65u8, 84u8, 69u8, 95u8, 69u8, 86u8, 69u8, 78u8, 84u8]
}

/// How a terminal outcome ends the task (a retryable failure is
/// terminal only on the last attempt, as `RetriesExhausted`).
pub open spec fn end_view_of(o: DispatchOutcome) -> TaskEndView {
    match o {
        DispatchOutcome::Success(b) => if b@ == duplicate_sentinel() {
            TaskEndView::DuplicateSuppressed
        } else {
            TaskEndView::Forwarded(b@)
        },
        DispatchOutcome::NonRetryableFailure(st) => TaskEndView::FailedStatus(st),
        DispatchOutcome::RetryableFailure => TaskEndView::RetriesExhausted,
        DispatchOutcome::TransportError => TaskEndView::TransportFailed,
    }
}

/// Whether this response body is the duplicate sentinel, exactly.
pub fn is_duplicate(body: &Vec<u8>) -> (r: bool)
    ensures
        r == (body@ == duplicate_sentinel()),
{
    let want: [u8; 15] = [68, 85, 80, 76, 73, 67, 65, 84, 69, 95, 69, 86, 69, 78, 84];
    proof {
        assert(want@ =~= duplicate_sentinel());
    }
    if body.len() != 15 {
        assert(body@.len() != duplicate_sentinel().len());
        return false;
    }
    let mut i: usize = 0;
    while i < 15
        invariant
            i <= 15,
            body@.len() == 15,
            want@ == duplicate_sentinel(),
            forall|j: int| 0 <= j < i ==> body@[j] == duplicate_sentinel()[j],
        decreases 15 - i,
    {
        if body[i] != want[i] {
            assert(body@[i as int] != duplicate_sentinel()[i as int]);
            return false;
        }
        i += 1;
    }
    assert(body@ =~= duplicate_sentinel());
    true
}

/// Decide what follows one attempt's outcome. `attempt` counts from 1.
pub fn decide(outcome: DispatchOutcome, attempt: u64) -> (d: RetryDecision)
    requires
        1 <= attempt <= MAX_ATTEMPTS,
    ensures
        match outcome {
            DispatchOutcome::RetryableFailure => if attempt < MAX_ATTEMPTS {
                d matches RetryDecision::RetryAfterDelay(ms) && ms == RETRY_DELAY_MS
            } else {
                d matches RetryDecision::Finished(e) && e.view_of()
                    == TaskEndView::RetriesExhausted
            },
            _ => d matches RetryDecision::Finished(e) && e.view_of() == end_view_of(outcome),
        },
{
    match outcome {
        DispatchOutcome::Success(body) => {
            if is_duplicate(&body) {
                RetryDecision::Finished(TaskEnd::DuplicateSuppressed)
            } else {
                RetryDecision::Finished(TaskEnd::Forwarded(body))
            }
        },
        DispatchOutcome::NonRetryableFailure(st) => {
            RetryDecision::Finished(TaskEnd::FailedStatus(st))
        },
        DispatchOutcome::TransportError => RetryDecision::Finished(TaskEnd::TransportFailed),
        DispatchOutcome::RetryableFailure => {
            if attempt < MAX_ATTEMPTS {
                RetryDecision::RetryAfterDelay(RETRY_DELAY_MS)
            } else {
                RetryDecision::Finished(TaskEnd::RetriesExhausted)
            }
        },
    }
}

/// Run the policy over a script of outcomes, one per attempt, the
/// first taken as attempt number `attempt`: how many attempts happen,
/// and how the task ends (`None` when the script runs out while the
/// policy still wants a retry).
pub open spec fn script_run(outs: Seq<DispatchOutcome>, attempt: nat) -> (nat, Option<
    TaskEndView,
>)
    decreases outs.len(),
{
    if outs.len() == 0 {
        (0, None::<TaskEndView>)
    } else {
        match outs.first() {
            DispatchOutcome::RetryableFailure => {
                if attempt < MAX_ATTEMPTS {
                    let rest = script_run(outs.drop_first(), attempt + 1);
                    ((rest.0 + 1) as nat, rest.1)
                } else {
                    (1, Some(TaskEndView::RetriesExhausted))
                }
            },
            o => (1, Some(end_view_of(o))),
        }
    }
}

/// Replay a script of outcomes against the policy, starting at
/// attempt 1: the attempt count and the task's end.
pub fn run_script(outs: Vec<DispatchOutcome>) -> (r: (usize, Option<TaskEnd>))
    ensures
        r.0 == script_run(outs@, 1).0,
        opt_end_view(r.1) == script_run(outs@, 1).1,
{
    let ghost full = outs@;
    let mut rest = outs;
    let mut attempt: u64 = 1;
    loop
        invariant
            full == outs@,
            1 <= attempt <= MAX_ATTEMPTS,
            attempt - 1 + rest@.len() == full.len(),
            script_run(full, 1).0 == attempt - 1 + script_run(rest@, attempt as nat).0,
            script_run(full, 1).1 == script_run(rest@, attempt as nat).1,
        decreases rest@.len(),
    {
        if rest.len() == 0 {
            return ((attempt - 1) as usize, None);
        }
        let ghost prev = rest@;
        let out = rest.remove(0);
        proof {
            assert(prev.first() == out);
            assert(rest@ =~= prev.drop_first());
        }
        match out {
            DispatchOutcome::RetryableFailure => {
                if attempt < MAX_ATTEMPTS {
                    attempt = attempt + 1;
                } else {
                    return ((attempt) as usize, Some(TaskEnd::RetriesExhausted));
                }
            },
            DispatchOutcome::Success(body) => {
                if is_duplicate(&body) {
                    return ((attempt) as usize, Some(TaskEnd::DuplicateSuppressed));
                } else {
                    return ((attempt) as usize, Some(TaskEnd::Forwarded(body)));
                }
            },
            DispatchOutcome::NonRetryableFailure(st) => {
                return ((attempt) as usize, Some(TaskEnd::FailedStatus(st)));
            },
            DispatchOutcome::TransportError => {
                return ((attempt) as usize, Some(TaskEnd::TransportFailed));
            },
        }
    }
}

/// Law: a script of nothing but retryable failures, at least as long
/// as the attempt ceiling, makes exactly `MAX_ATTEMPTS` attempts and
/// ends with the retries exhausted — there is no further attempt.
pub proof fn lemma_retries_exhausted(outs: Seq<DispatchOutcome>)
    requires
        outs.len() >= MAX_ATTEMPTS,
        forall|j: int| 0 <= j < outs.len() ==> outs[j] is RetryableFailure,
    ensures
        script_run(outs, 1).0 == MAX_ATTEMPTS,
        script_run(outs, 1).1 == Some(TaskEndView::RetriesExhausted),
{
    lemma_retries_exhausted_from(outs, 1);
}

proof fn lemma_retries_exhausted_from(outs: Seq<DispatchOutcome>, attempt: nat)
    requires
        1 <= attempt <= MAX_ATTEMPTS,
        outs.len() >= MAX_ATTEMPTS - attempt + 1,
        forall|j: int| 0 <= j < outs.len() ==> outs[j] is RetryableFailure,
    ensures
        script_run(outs, attempt).0 == MAX_ATTEMPTS - attempt + 1,
        script_run(outs, attempt).1 == Some(TaskEndView::RetriesExhausted),
    decreases MAX_ATTEMPTS - attempt,
{
    assert(outs[0] is RetryableFailure);
    if attempt < MAX_ATTEMPTS {
        lemma_retries_exhausted_from(outs.drop_first(), attempt + 1);
    }
}

/// Law: a first outcome that is a non-retryable failure ends the task
/// after exactly one attempt, reporting that status.
pub proof fn lemma_non_retryable_single_attempt(outs: Seq<DispatchOutcome>, st: u16)
    requires
        outs.len() >= 1,
        outs[0] == DispatchOutcome::NonRetryableFailure(st),
    ensures
        script_run(outs, 1).0 == 1,
        script_run(outs, 1).1 == Some(TaskEndView::FailedStatus(st)),
{
}

/// Law: a first outcome that is a transport error ends the task after
/// exactly one attempt.
pub proof fn lemma_transport_single_attempt(outs: Seq<DispatchOutcome>)
    requires
        outs.len() >= 1,
        outs[0] is TransportError,
    ensures
        script_run(outs, 1).0 == 1,
        script_run(outs, 1).1 == Some(TaskEndView::TransportFailed),
{
}

/// Law: a first successful outcome ends the task after exactly one
/// attempt — no retry — and the duplicate sentinel, and only it, is
/// distinguished from a forwarded event.
pub proof fn lemma_success_short_circuits(outs: Seq<DispatchOutcome>, body: Vec<u8>)
    requires
        outs.len() >= 1,
        outs[0] == DispatchOutcome::Success(body),
    ensures
        script_run(outs, 1).0 == 1,
        body@ == duplicate_sentinel() ==> script_run(outs, 1).1 == Some(
            TaskEndView::DuplicateSuppressed,
        ),
        body@ != duplicate_sentinel() ==> script_run(outs, 1).1 == Some(
            TaskEndView::Forwarded(body@),
        ),
{
}

} // verus!
