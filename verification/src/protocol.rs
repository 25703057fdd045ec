//! What passes between the pipeline and its driver: the requests that the
//! pipeline asks for, and the reports that it takes in.

use crate::confirm::ConfirmationStatus;
use crate::error::PipelineError;
use crate::fee::SimulationOutcome;
use crate::submit::SubmissionResult;
use solana_sdk::transaction::Transaction;
use vstd::prelude::*;

verus! {

/// A recent blockhash and the slot at which it was seen. It is fetched once
/// per batch element.
#[derive(Clone, Copy, Debug, PartialEq, Eq)]
pub struct Blockhash {
    /// The token that a transaction is signed with.
    pub hash: solana_sdk::hash::Hash,
    /// The slot at which the network reported it.
    pub slot: u64,
}

/// What the driver reports back to the pipeline.
#[derive(Debug)]
pub enum Event {
    /// The fee payer's balance, in answer to `Action::QueryBalance`.
    Balance(u64),
    /// A recent blockhash, in answer to `Action::FetchBlockhash`.
    Blockhash(Blockhash),
    /// The end of a simulation, in answer to `Action::Simulate`.
    Simulation(SimulationOutcome),
    /// The signed transaction, in answer to `Action::Sign`.
    Signed(Transaction),
    /// The end of a submission, in answer to `Action::Submit`.
    Submission(SubmissionResult),
    /// The polled status, in answer to `Action::Poll`.
    Status(ConfirmationStatus),
    /// The request that was asked for failed at the network layer.
    TransportFailure,
}

/// What the pipeline asks its driver to do next.
#[derive(Clone, Copy, Debug, PartialEq, Eq, Structural)]
pub enum Action {
    /// Query the fee payer's balance.
    QueryBalance,
    /// Fetch a recent blockhash and its slot.
    FetchBlockhash,
    /// Simulate the draft, unsigned.
    Simulate,
    /// Sign the draft with its blockhash.
    Sign,
    /// Wait for `delay_ms` milliseconds, then send the signed transaction.
    Submit { delay_ms: u64 },
    /// Wait for `delay_ms` milliseconds, then poll the status of the last
    /// signature.
    Poll { delay_ms: u64 },
    /// Nothing: every element went through.
    Complete,
    /// Nothing: the batch has failed with this error.
    Abort(PipelineError),
}

/// Where the element in flight stands.
#[derive(Clone, Copy, Debug, PartialEq, Eq, Structural)]
pub enum Stage {
    AwaitingBalance,
    AwaitingBlockhash,
    /// The draft is being simulated, after this many failed simulations.
    Simulating { failures: u64 },
    AwaitingSignature,
    /// The signed transaction is being sent, after this many failed sends.
    Submitting { failures: u64 },
    /// The signature is being polled, after this many polls below the
    /// threshold.
    Confirming { polls: u64 },
    /// Every element went through.
    Completed,
    /// An element failed, and the batch with it.
    Aborted(PipelineError),
}

impl Stage {
    /// The place of the stage in the flow of one element.
    pub open spec fn rank(self) -> nat {
        match self {
            Stage::AwaitingBalance => 0,
            Stage::AwaitingBlockhash => 1,
            Stage::Simulating { .. } => 2,
            Stage::AwaitingSignature => 3,
            Stage::Submitting { .. } => 4,
            Stage::Confirming { .. } => 5,
            Stage::Completed => 6,
            Stage::Aborted(_) => 6,
        }
    }

    /// Whether nothing follows the stage.
    pub open spec fn is_final(self) -> bool {
        self is Completed || self is Aborted
    }
}

} // verus!
