//! The constants that tune the pipeline, gathered in one value that is handed
//! to it when it is made.

use vstd::prelude::*;

verus! {

/// How settled a ledger state must be before it is trusted.
#[derive(Clone, Copy, Debug, PartialEq, Eq, Structural)]
pub enum Commitment {
    Processed,
    Confirmed,
    Finalized,
}

impl Commitment {
    /// The place of the level in the progression processed, confirmed,
    /// finalized, counted from 1.
    pub open spec fn rank(self) -> nat {
        match self {
            Commitment::Processed => 1,
            Commitment::Confirmed => 2,
            Commitment::Finalized => 3,
        }
    }
}

/// Failed submissions that are resent before the submitter gives up.
pub const SUBMISSION_RETRIES: u64 = 4;

/// Milliseconds to wait before a failed submission is resent.
pub const SUBMISSION_DELAY_MS: u64 = 2000;

/// Failed simulations that are repeated before the fee optimizer gives up.
pub const SIMULATION_RETRIES: u64 = 4;

/// Polls below the threshold that are repeated before the confirmer gives up.
pub const CONFIRMATION_RETRIES: u64 = 4;

/// Milliseconds to wait before the confirmation status is polled again.
pub const CONFIRMATION_DELAY_MS: u64 = 5000;

/// Compute units added to what a simulation consumed.
pub const COMPUTE_UNIT_MARGIN: u32 = 1000;

/// The tuning of one pipeline. Each phase has a ceiling and a delay of its
/// own; none is shared.
#[derive(Clone, Copy, Debug, PartialEq, Eq, Structural)]
pub struct PipelineConfig {
    /// A submission is given up at failure number `ceiling + 1`.
    pub submission_retry_ceiling: u64,
    /// Milliseconds between a failed submission and the next.
    pub submission_retry_delay_ms: u64,
    /// A simulation is given up at failure number `ceiling + 1`.
    pub simulation_retry_ceiling: u64,
    /// A confirmation is given up at poll number `ceiling + 1` below the
    /// threshold.
    pub confirmation_retry_ceiling: u64,
    /// Milliseconds between a poll below the threshold and the next.
    pub confirmation_retry_delay_ms: u64,
    /// Compute units added to what a simulation consumed.
    pub compute_unit_margin: u32,
    /// Priority fee per compute unit, in micro-lamports.
    pub priority_fee_per_unit: u64,
    /// The status at which a submitted transaction counts as confirmed.
    pub confirmation_threshold: Commitment,
}

impl PipelineConfig {
    /// The standard tuning, with the caller's priority fee and confirmation
    /// threshold.
    pub fn standard(priority_fee_per_unit: u64, confirmation_threshold: Commitment) -> (config:
        PipelineConfig)
        ensures
            config == (PipelineConfig {
                submission_retry_ceiling: SUBMISSION_RETRIES,
                submission_retry_delay_ms: SUBMISSION_DELAY_MS,
                simulation_retry_ceiling: SIMULATION_RETRIES,
                confirmation_retry_ceiling: CONFIRMATION_RETRIES,
                confirmation_retry_delay_ms: CONFIRMATION_DELAY_MS,
                compute_unit_margin: COMPUTE_UNIT_MARGIN,
                priority_fee_per_unit,
                confirmation_threshold,
            }),
    {
        PipelineConfig {
            submission_retry_ceiling: SUBMISSION_RETRIES,
            submission_retry_delay_ms: SUBMISSION_DELAY_MS,
            simulation_retry_ceiling: SIMULATION_RETRIES,
            confirmation_retry_ceiling: CONFIRMATION_RETRIES,
            confirmation_retry_delay_ms: CONFIRMATION_DELAY_MS,
            compute_unit_margin: COMPUTE_UNIT_MARGIN,
            priority_fee_per_unit,
            confirmation_threshold,
        }
    }
}

} // verus!
