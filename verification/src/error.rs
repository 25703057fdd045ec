//! What ends a batch early: which element failed, in which phase, and how.

use vstd::prelude::*;

verus! {

/// The phases that one batch element goes through, in order.
#[derive(Clone, Copy, Debug, PartialEq, Eq, Structural)]
pub enum Phase {
    /// The balance check.
    Preflight,
    /// The fetch of a recent blockhash.
    BlockhashAcquisition,
    /// The simulation loop that sizes the compute budget.
    FeeOptimizer,
    /// The bounded retry of the submission.
    Submitter,
    /// The poll for the confirmation status.
    Confirmer,
}

/// The ways in which a phase fails for good.
#[derive(Clone, Copy, Debug, PartialEq, Eq, Structural)]
pub enum FailureKind {
    /// The fee payer's balance is not strictly positive.
    InsufficientFunds,
    /// The simulation failed more often than its ceiling allows.
    SimulationFailed,
    /// The submission failed more often than its ceiling allows.
    SubmissionFailed,
    /// The status stayed below the threshold for more polls than the
    /// ceiling allows.
    ConfirmationTimeout,
    /// The ledger reports that the transaction failed when it was executed.
    OnChainExecutionError,
    /// A request failed at the network layer in a phase that does not retry.
    TransportError,
}

/// The error of a batch: the one element that failed, and how. The signatures
/// of the elements before it are not part of it.
#[derive(Clone, Copy, Debug, PartialEq, Eq, Structural)]
pub struct PipelineError {
    /// The index of the failed element in the batch.
    pub element: usize,
    /// The phase in which it failed.
    pub phase: Phase,
    /// How it failed.
    pub kind: FailureKind,
}

/// The phases in which a failure of each kind can arise.
pub open spec fn arises_in(kind: FailureKind, phase: Phase) -> bool {
    match kind {
        FailureKind::InsufficientFunds => phase == Phase::Preflight,
        FailureKind::SimulationFailed => phase == Phase::FeeOptimizer,
        FailureKind::SubmissionFailed => phase == Phase::Submitter,
        FailureKind::ConfirmationTimeout => phase == Phase::Confirmer,
        FailureKind::OnChainExecutionError => phase == Phase::Confirmer,
        FailureKind::TransportError => phase == Phase::Preflight || phase
            == Phase::BlockhashAcquisition,
    }
}

/// The text that goes with each kind of failure.
pub open spec fn message_of(kind: FailureKind) -> Seq<char> {
    match kind {
        FailureKind::InsufficientFunds => "Insufficient SOL balance"@,
        FailureKind::SimulationFailed => "Simulation failed"@,
        FailureKind::SubmissionFailed => "Max retries exceeded"@,
        FailureKind::ConfirmationTimeout => "Confirmation timed out"@,
        FailureKind::OnChainExecutionError => "Transaction failed on chain"@,
        FailureKind::TransportError => "Transport error"@,
    }
}

impl PipelineError {
    /// A short text for the error, by its kind.
    pub fn message(&self) -> (text: &'static str)
        ensures
            text@ == message_of(self.kind),
    {
        match self.kind {
            FailureKind::InsufficientFunds => "Insufficient SOL balance",
            FailureKind::SimulationFailed => "Simulation failed",
            FailureKind::SubmissionFailed => "Max retries exceeded",
            FailureKind::ConfirmationTimeout => "Confirmation timed out",
            FailureKind::OnChainExecutionError => "Transaction failed on chain",
            FailureKind::TransportError => "Transport error",
        }
    }
}

} // verus!
