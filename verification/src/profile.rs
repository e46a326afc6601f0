//! Profile-directory deletion with bounded retry.
//!
//! The platform's storage engine may hold a brief exclusive lock on
//! profile files after the surface object is released, so removal is
//! retried at a fixed interval: up to 15 attempts, 200 ms apart, about
//! three seconds in all. The host performs the actual filesystem removal
//! on a worker thread and follows the policy decided here; a directory
//! that is already absent counts as success.

use vstd::prelude::*;

verus! {

/// How often removal is attempted before giving up.
pub const MAX_DELETE_ATTEMPTS: u32 = 15;

/// Fixed interval between two removal attempts, in milliseconds.
pub const DELETE_RETRY_INTERVAL_MS: u64 = 200;

/// The outcome of one removal attempt, as the host reports it.
pub enum RemovalOutcome {
    /// The directory is gone.
    Removed,
    /// Removal failed; carries the underlying cause.
    Blocked(String),
}

/// Profile removal failed after exhausting every attempt.
#[derive(Debug, PartialEq, Eq)]
pub struct DeletionError {
    /// How many attempts were made.
    pub attempts: u32,
    /// The last underlying cause.
    pub last_cause: String,
}

/// What the policy asks the host to do after one attempt.
#[derive(Clone, Copy, PartialEq, Eq, Structural, Debug)]
pub enum RetryDecision {
    /// The directory is gone; report success.
    Finished,
    /// Wait one interval, attempt again.
    SleepAndRetry,
    /// Attempts are exhausted; report failure with the last cause.
    GiveUp,
}

/// Decide what follows attempt number `attempt` (counted from 0): success
/// ends the retry at once; a blocked attempt sleeps and retries until the
/// final attempt, which gives up.
pub fn deletion_step(attempt: u32, outcome: &RemovalOutcome) -> (d: RetryDecision)
    requires
        attempt < MAX_DELETE_ATTEMPTS,
    ensures
        outcome is Removed ==> d == RetryDecision::Finished,
        outcome is Blocked && attempt + 1 < MAX_DELETE_ATTEMPTS ==> d
            == RetryDecision::SleepAndRetry,
        outcome is Blocked && attempt + 1 == MAX_DELETE_ATTEMPTS ==> d == RetryDecision::GiveUp,
{
    match outcome {
        RemovalOutcome::Removed => RetryDecision::Finished,
        RemovalOutcome::Blocked(_) => {
            if attempt + 1 < MAX_DELETE_ATTEMPTS {
                RetryDecision::SleepAndRetry
            } else {
                RetryDecision::GiveUp
            }
        },
    }
}

/// What the whole retry must report for a given trace of attempt
/// outcomes: success after the first removal within the window, counted
/// in attempts; otherwise failure after exactly the full window, carrying
/// the last cause.
pub open spec fn deletion_verdict(outcomes: Seq<RemovalOutcome>, r: Result<u32, DeletionError>)
    -> bool {
    match r {
        Result::Ok(n) => {
            &&& 1 <= n <= MAX_DELETE_ATTEMPTS
            &&& outcomes[n - 1] is Removed
            &&& forall|k: int| 0 <= k < n - 1 ==> outcomes[k] is Blocked
        },
        Result::Err(e) => {
            &&& forall|k: int| 0 <= k < MAX_DELETE_ATTEMPTS ==> outcomes[k] is Blocked
            &&& e.attempts == MAX_DELETE_ATTEMPTS
            &&& e.last_cause@ == outcomes[MAX_DELETE_ATTEMPTS - 1]->Blocked_0@
        },
    }
}

/// Replay the retry policy over a trace of attempt outcomes: the result
/// the host's retry loop reports when the successive attempts turn out as
/// `outcomes` says. Success is reported the moment an attempt removes the
/// directory; a trace whose first 15 attempts are all blocked yields a
/// `DeletionError` carrying the last cause.
pub fn evaluate_removal_trace(outcomes: &Vec<RemovalOutcome>) -> (r: Result<u32, DeletionError>)
    requires
        outcomes@.len() >= MAX_DELETE_ATTEMPTS,
    ensures
        deletion_verdict(outcomes@, r),
{
    let mut attempt: u32 = 0;
    while attempt < MAX_DELETE_ATTEMPTS
        invariant
            attempt <= MAX_DELETE_ATTEMPTS,
            outcomes@.len() >= MAX_DELETE_ATTEMPTS,
            forall|k: int| 0 <= k < attempt ==> outcomes@[k] is Blocked,
        decreases MAX_DELETE_ATTEMPTS - attempt,
    {
        match deletion_step(attempt, &outcomes[attempt as usize]) {
            RetryDecision::Finished => {
                return Result::Ok(attempt + 1);
            },
            RetryDecision::SleepAndRetry => {},
            RetryDecision::GiveUp => {
                let cause = match &outcomes[attempt as usize] {
                    RemovalOutcome::Removed => String::new(),
                    RemovalOutcome::Blocked(c) => c.clone(),
                };
                return Result::Err(
                    DeletionError { attempts: MAX_DELETE_ATTEMPTS, last_cause: cause },
                );
            },
        }
        attempt += 1;
    }
    proof {
        assert(outcomes@[MAX_DELETE_ATTEMPTS - 1] is Blocked);
    }
    let cause = match &outcomes[(MAX_DELETE_ATTEMPTS - 1) as usize] {
        RemovalOutcome::Removed => String::new(),
        RemovalOutcome::Blocked(c) => c.clone(),
    };
    Result::Err(DeletionError { attempts: MAX_DELETE_ATTEMPTS, last_cause: cause })
}

/// Law: a directory that becomes deletable within the retry window is
/// deleted, at the first attempt that can remove it; one that never
/// becomes deletable yields a deletion failure after exactly the full
/// window of attempts.
pub proof fn lemma_deletion_bounded(
    outcomes: Seq<RemovalOutcome>,
    r: Result<u32, DeletionError>,
    k: int,
)
    requires
        outcomes.len() >= MAX_DELETE_ATTEMPTS,
        deletion_verdict(outcomes, r),
        0 <= k < MAX_DELETE_ATTEMPTS,
        outcomes[k] is Removed,
    ensures
        r is Ok,
        r->Ok_0 <= k + 1,
{
    match r {
        Result::Ok(n) => {
            if n > k + 1 {
                assert(outcomes[k] is Blocked);
            }
        },
        Result::Err(_) => {
            assert(outcomes[k] is Blocked);
        },
    }
}

/// Law: a trace whose whole window is blocked yields the failure, after
/// exactly the full window of attempts.
pub proof fn lemma_deletion_exhausted(outcomes: Seq<RemovalOutcome>, r: Result<u32, DeletionError>)
    requires
        outcomes.len() >= MAX_DELETE_ATTEMPTS,
        deletion_verdict(outcomes, r),
        forall|k: int| 0 <= k < MAX_DELETE_ATTEMPTS ==> outcomes[k] is Blocked,
    ensures
        r is Err,
        r->Err_0.attempts == MAX_DELETE_ATTEMPTS,
{
    match r {
        Result::Ok(n) => {
            assert(outcomes[n - 1] is Blocked);
        },
        Result::Err(_) => {},
    }
}

} // verus!
