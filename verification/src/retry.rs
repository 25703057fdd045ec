//! The bounded retry that the fee optimizer, the submitter and the confirmer
//! share: a phase attempts, and either succeeds or runs out of retries.

use vstd::prelude::*;

verus! {

/// Where a retried phase stands.
#[derive(Clone, Copy, Debug, PartialEq, Eq, Structural)]
pub enum RetryState {
    /// Still trying, after this many failed attempts.
    Attempting { failures: u64 },
    /// An attempt succeeded.
    Succeeded,
    /// There were more failures than the ceiling allows.
    RetriesExhausted,
}

/// How one attempt ended.
#[derive(Clone, Copy, Debug, PartialEq, Eq, Structural)]
pub enum AttemptOutcome {
    Success,
    Failure,
}

/// The state after one more attempt. A failure is retried while the count of
/// failures, this one included, does not exceed `ceiling`. The two final
/// states stay as they are.
pub open spec fn retry_step(state: RetryState, outcome: AttemptOutcome, ceiling: u64) -> RetryState {
    match state {
        RetryState::Attempting { failures } => match outcome {
            AttemptOutcome::Success => RetryState::Succeeded,
            AttemptOutcome::Failure => if failures < ceiling {
                RetryState::Attempting { failures: (failures + 1) as u64 }
            } else {
                RetryState::RetriesExhausted
            },
        },
        RetryState::Succeeded => RetryState::Succeeded,
        RetryState::RetriesExhausted => RetryState::RetriesExhausted,
    }
}

/// The state after the attempts of `outcomes`, one after the other.
pub open spec fn retry_run(state: RetryState, outcomes: Seq<AttemptOutcome>, ceiling: u64) -> RetryState
    decreases outcomes.len(),
{
    if outcomes.len() == 0 {
        state
    } else {
        retry_step(retry_run(state, outcomes.drop_last(), ceiling), outcomes.last(), ceiling)
    }
}

/// The state after one more attempt.
pub fn transition(state: RetryState, outcome: AttemptOutcome, ceiling: u64) -> (next: RetryState)
    ensures
        next == retry_step(state, outcome, ceiling),
{
    match state {
        RetryState::Attempting { failures } => match outcome {
            AttemptOutcome::Success => RetryState::Succeeded,
            AttemptOutcome::Failure => {
                if failures < ceiling {
                    RetryState::Attempting { failures: failures + 1 }
                } else {
                    RetryState::RetriesExhausted
                }
            },
        },
        RetryState::Succeeded => RetryState::Succeeded,
        RetryState::RetriesExhausted => RetryState::RetriesExhausted,
    }
}

/// A run of failures only, no longer than the ceiling, is still attempting,
/// and has counted each of them.
pub proof fn law_failures_within_ceiling(count: nat, ceiling: u64)
    requires
        count <= ceiling,
    ensures
        retry_run(
            RetryState::Attempting { failures: 0 },
            Seq::new(count, |i: int| AttemptOutcome::Failure),
            ceiling,
        ) == (RetryState::Attempting { failures: count as u64 }),
    decreases count,
{
    let run = Seq::new(count, |i: int| AttemptOutcome::Failure);
    if count > 0 {
        law_failures_within_ceiling((count - 1) as nat, ceiling);
        assert(run.drop_last() =~= Seq::new((count - 1) as nat, |i: int| AttemptOutcome::Failure));
    }
}

/// Fewer than `ceiling + 1` failures and then a success end in success.
pub proof fn law_success_after_failures(count: nat, ceiling: u64)
    requires
        count <= ceiling,
    ensures
        retry_run(
            RetryState::Attempting { failures: 0 },
            Seq::new(count, |i: int| AttemptOutcome::Failure).push(AttemptOutcome::Success),
            ceiling,
        ) == RetryState::Succeeded,
{
    let failures = Seq::new(count, |i: int| AttemptOutcome::Failure);
    law_failures_within_ceiling(count, ceiling);
    assert(failures.push(AttemptOutcome::Success).drop_last() =~= failures);
}

/// Exactly `ceiling + 1` failures exhaust the retries.
pub proof fn law_exhaustion(ceiling: u64)
    ensures
        retry_run(
            RetryState::Attempting { failures: 0 },
            Seq::new((ceiling + 1) as nat, |i: int| AttemptOutcome::Failure),
            ceiling,
        ) == RetryState::RetriesExhausted,
{
    let run = Seq::new((ceiling + 1) as nat, |i: int| AttemptOutcome::Failure);
    law_failures_within_ceiling(ceiling as nat, ceiling);
    assert(run.drop_last() =~= Seq::new(ceiling as nat, |i: int| AttemptOutcome::Failure));
}

} // verus!
