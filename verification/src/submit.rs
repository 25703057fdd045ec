//! The submitter's side of a send: what comes back, and the options that
//! every send carries.

use crate::config::Commitment;
use solana_sdk::signature::Signature;
use vstd::prelude::*;

verus! {

/// What one submission of the signed transaction came to.
#[derive(Clone, Copy, Debug, PartialEq, Eq)]
pub enum SubmissionResult {
    /// The network took the transaction and assigned it this signature.
    Accepted(Signature),
    /// The network refused it, or the request did not get through.
    Rejected,
}

/// The options of a send. The pipeline has made its own checks and does its
/// own retries, so the transport is asked for neither.
#[derive(Clone, Copy, Debug, PartialEq, Eq, Structural)]
pub struct SendOptions {
    /// Whether the transport skips its own checks before it sends.
    pub skip_preflight: bool,
    /// The commitment of those checks, for a transport that wants one.
    pub preflight_commitment: Commitment,
    /// How often the transport itself may resend.
    pub max_retries: u64,
    /// The slot before which the network must not process the transaction.
    pub min_context_slot: u64,
}

/// The options of a send for a blockhash that was seen at `slot`.
pub open spec fn send_options_at(slot: u64) -> SendOptions {
    SendOptions {
        skip_preflight: true,
        preflight_commitment: Commitment::Finalized,
        max_retries: 0,
        min_context_slot: slot,
    }
}

/// The options of a send: the transport's checks are skipped, it does not
/// resend, and the network must have reached the slot of the blockhash.
pub fn send_options(slot: u64) -> (options: SendOptions)
    ensures
        options == send_options_at(slot),
{
    SendOptions {
        skip_preflight: true,
        preflight_commitment: Commitment::Finalized,
        max_retries: 0,
        min_context_slot: slot,
    }
}

} // verus!
