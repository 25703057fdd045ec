//! The confirmer's judgement of one polled status.

use crate::config::Commitment;
use vstd::prelude::*;

verus! {

/// What a poll finds of a submitted transaction. The first four are a
/// progression, and a transaction only moves forward in it; the last is
/// final.
#[derive(Clone, Copy, Debug, PartialEq, Eq, Structural)]
pub enum ConfirmationStatus {
    /// The network does not know the transaction yet.
    Unseen,
    Processed,
    Confirmed,
    Finalized,
    /// The transaction was executed and failed.
    Failed,
}

impl ConfirmationStatus {
    /// The place of the status in the progression, with 0 for unseen. The
    /// final error has no place in it and is given 0 too.
    pub open spec fn rank(self) -> nat {
        match self {
            ConfirmationStatus::Unseen => 0,
            ConfirmationStatus::Processed => 1,
            ConfirmationStatus::Confirmed => 2,
            ConfirmationStatus::Finalized => 3,
            ConfirmationStatus::Failed => 0,
        }
    }
}

/// What the network knows of a transaction that it has seen.
#[derive(Clone, Copy, Debug, PartialEq, Eq, Structural)]
pub struct StatusReport {
    /// Whether the transaction failed when it was executed.
    pub failed: bool,
    /// How settled the transaction is.
    pub level: Commitment,
}

/// The status that a poll found: unseen without a report, failed where the
/// report says so, and else the level of the report.
pub open spec fn status_of(report: Option<StatusReport>) -> ConfirmationStatus {
    match report {
        None => ConfirmationStatus::Unseen,
        Some(report) => if report.failed {
            ConfirmationStatus::Failed
        } else {
            match report.level {
                Commitment::Processed => ConfirmationStatus::Processed,
                Commitment::Confirmed => ConfirmationStatus::Confirmed,
                Commitment::Finalized => ConfirmationStatus::Finalized,
            }
        },
    }
}

/// Reads what a poll found. A failure on chain goes before the level.
pub fn read_status(report: Option<StatusReport>) -> (status: ConfirmationStatus)
    ensures
        status == status_of(report),
{
    match report {
        None => ConfirmationStatus::Unseen,
        Some(report) => {
            if report.failed {
                ConfirmationStatus::Failed
            } else {
                match report.level {
                    Commitment::Processed => ConfirmationStatus::Processed,
                    Commitment::Confirmed => ConfirmationStatus::Confirmed,
                    Commitment::Finalized => ConfirmationStatus::Finalized,
                }
            }
        },
    }
}

/// What the confirmer makes of one poll.
#[derive(Clone, Copy, Debug, PartialEq, Eq, Structural)]
pub enum PollVerdict {
    /// The status is at the threshold or beyond it.
    Reached,
    /// The status is below the threshold: poll again.
    Below,
    /// The transaction failed on chain.
    Failed,
}

/// The verdict on a status, for a threshold.
pub open spec fn verdict_of(status: ConfirmationStatus, threshold: Commitment) -> PollVerdict {
    if status == ConfirmationStatus::Failed {
        PollVerdict::Failed
    } else if status.rank() >= threshold.rank() {
        PollVerdict::Reached
    } else {
        PollVerdict::Below
    }
}

/// Judges one polled status against the threshold.
pub fn judge(status: ConfirmationStatus, threshold: Commitment) -> (verdict: PollVerdict)
    ensures
        verdict == verdict_of(status, threshold),
{
    match status {
        ConfirmationStatus::Failed => PollVerdict::Failed,
        ConfirmationStatus::Unseen => PollVerdict::Below,
        ConfirmationStatus::Processed => match threshold {
            Commitment::Processed => PollVerdict::Reached,
            _ => PollVerdict::Below,
        },
        ConfirmationStatus::Confirmed => match threshold {
            Commitment::Finalized => PollVerdict::Below,
            _ => PollVerdict::Reached,
        },
        ConfirmationStatus::Finalized => PollVerdict::Reached,
    }
}

} // verus!
