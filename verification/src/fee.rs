//! The fee optimizer: from what a simulation consumed to the instruction list
//! that declares a compute budget and a priority fee.

use crate::ledger::{
    compute_unit_limit_instruction, compute_unit_price_instruction, copy_instructions,
    set_compute_unit_limit, set_compute_unit_price, InstructionGroup,
};
use solana_program::instruction::Instruction;
use vstd::prelude::*;

verus! {

/// What one simulation of the unsigned draft came to.
#[derive(Clone, Copy, Debug, PartialEq, Eq, Structural)]
pub enum SimulationOutcome {
    /// The simulation ran through and consumed this many compute units.
    Consumed(u64),
    /// The simulation ran and the transaction failed in it.
    ExecutionError,
    /// The simulation ran and reported neither an error nor a count.
    NoReport,
    /// The request did not get through.
    TransportError,
}

/// What a simulation that got through reported: an error of the simulated
/// transaction, a count of consumed units, both, or neither.
pub open spec fn outcome_of(reported_error: bool, units_consumed: Option<u64>) -> SimulationOutcome {
    if reported_error {
        SimulationOutcome::ExecutionError
    } else {
        match units_consumed {
            Some(consumed) => SimulationOutcome::Consumed(consumed),
            None => SimulationOutcome::NoReport,
        }
    }
}

/// Reads the report of a simulation that got through. An error goes before
/// a count; a report with neither is kept apart, so that it is retried like
/// an error and not waited on.
pub fn read_report(reported_error: bool, units_consumed: Option<u64>) -> (outcome:
    SimulationOutcome)
    ensures
        outcome == outcome_of(reported_error, units_consumed),
{
    if reported_error {
        SimulationOutcome::ExecutionError
    } else {
        match units_consumed {
            Some(consumed) => SimulationOutcome::Consumed(consumed),
            None => SimulationOutcome::NoReport,
        }
    }
}

/// How a simulation is requested: it must not depend on a signature or on a
/// blockhash that is still valid.
#[derive(Clone, Copy, Debug, PartialEq, Eq, Structural)]
pub struct SimulationOptions {
    /// Whether the network checks the signatures of the simulated draft.
    pub verify_signature: bool,
    /// Whether the network puts a current blockhash in place of the draft's.
    pub replace_blockhash: bool,
}

/// The options of every simulation: signatures unchecked, blockhash replaced.
pub fn simulation_options() -> (options: SimulationOptions)
    ensures
        options == (SimulationOptions { verify_signature: false, replace_blockhash: true }),
{
    SimulationOptions { verify_signature: false, replace_blockhash: true }
}

/// The compute-unit limit for a draft that consumed `consumed` units: that
/// count and a flat margin on top. There is none where the sum is more than
/// a limit can hold.
pub open spec fn compute_budget(consumed: u64, margin: u32) -> Option<u32> {
    if consumed + margin <= u32::MAX {
        Some((consumed + margin) as u32)
    } else {
        None
    }
}

/// The limit that a simulation yields: the budget for its count, and none
/// for an outcome without a count.
pub open spec fn budget_of(outcome: SimulationOutcome, margin: u32) -> Option<u32> {
    match outcome {
        SimulationOutcome::Consumed(consumed) => compute_budget(consumed, margin),
        _ => None,
    }
}

/// The instruction list of a fee-optimized draft: the limit, the price, and
/// then the group as it was.
pub open spec fn budgeted(group: Seq<Instruction>, limit: u32, price: u64) -> Seq<Instruction> {
    seq![compute_unit_limit_instruction(limit), compute_unit_price_instruction(price)] + group
}

/// The compute-unit limit for a draft that consumed `consumed` units.
pub fn budget_for(consumed: u64, margin: u32) -> (budget: Option<u32>)
    ensures
        budget == compute_budget(consumed, margin),
{
    let room: u32 = u32::MAX - margin;
    if consumed <= room as u64 {
        Some(consumed as u32 + margin)
    } else {
        None
    }
}

/// The limit that a simulation yields. Every outcome but a count within
/// range yields none, and the fee optimizer counts it as a failed attempt.
pub fn simulated_budget(outcome: SimulationOutcome, margin: u32) -> (budget: Option<u32>)
    ensures
        budget == budget_of(outcome, margin),
{
    match outcome {
        SimulationOutcome::Consumed(consumed) => budget_for(consumed, margin),
        _ => None,
    }
}

/// Builds the instruction list of a fee-optimized draft: a compute-unit-limit
/// instruction, a compute-unit-price instruction, and the instructions of
/// `group`, unchanged and in their order.
pub fn with_compute_budget(group: &InstructionGroup, limit: u32, price: u64) -> (rebuilt:
    InstructionGroup)
    ensures
        rebuilt@ == budgeted(group@, limit, price),
        rebuilt@.len() == group@.len() + 2,
        rebuilt@[0] == compute_unit_limit_instruction(limit),
        rebuilt@[1] == compute_unit_price_instruction(price),
        forall|i: int| 0 <= i < group@.len() ==> rebuilt@[i + 2] == group@[i],
{
    let mut rebuilt: InstructionGroup = Vec::new();
    rebuilt.push(set_compute_unit_limit(limit));
    rebuilt.push(set_compute_unit_price(price));
    let mut rest = copy_instructions(group);
    rebuilt.append(&mut rest);
    rebuilt
}

} // verus!
