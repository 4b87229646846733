//! Properties of how requests to GitHub are retried.
use vstd::prelude::*;
use super::github::{AttemptOutcome, RetryDecision, MAX_RETRIES, retry_decision_spec, is_throttled};

verus! {

/// Retries stop: from the `MAX_RETRIES`-th attempt on, and whenever the
/// back-off offers no further delay, the decision is never to try again.
pub proof fn law_retries_bounded(
    operation: &'static str,
    attempts: u32,
    outcome: AttemptOutcome,
    backoff_available: bool,
    d: RetryDecision,
)
    requires
        retry_decision_spec(operation, attempts, outcome, backoff_available, d),
        attempts >= MAX_RETRIES || !backoff_available,
    ensures
        !(d is Retry),
{
}

/// An answer that is not throttled is always taken as it is, however many
/// attempts were made.
pub proof fn law_unthrottled_answer_accepted(
    operation: &'static str,
    attempts: u32,
    status: u16,
    backoff_available: bool,
    d: RetryDecision,
)
    requires
        retry_decision_spec(operation, attempts, AttemptOutcome::Answered { status }, backoff_available, d),
        !is_throttled(status),
    ensures
        d == RetryDecision::Accept,
{
}

} // verus!
