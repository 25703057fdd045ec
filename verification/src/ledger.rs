//! The ledger's own values, which this crate carries and never looks into,
//! and the two compute-budget instructions it asks the ledger SDK to build.

use solana_program::instruction::Instruction;
use solana_sdk::compute_budget::ComputeBudgetInstruction;
use solana_sdk::signature::Signature;
use solana_sdk::transaction::Transaction;
use vstd::prelude::*;

verus! {

/// `solana_program::instruction::Instruction`: one instruction record of a
/// group. Nothing is assumed of what it holds.
#[verifier::external_type_specification]
#[verifier::external_body]
pub struct ExInstruction(Instruction);

/// `solana_sdk::transaction::Transaction`: a signed transaction, kept as the
/// signer returned it.
#[verifier::external_type_specification]
#[verifier::external_body]
pub struct ExTransaction(Transaction);

/// `solana_sdk::signature::Signature`: the identifier the network assigns to
/// an accepted transaction.
#[verifier::external_type_specification]
#[verifier::external_body]
pub struct ExSignature(Signature);

/// `core::array::TryFromSliceError`: the error of the signature type's
/// conversion from a byte slice, which Verus meets when it reads that type's
/// impls. No function here takes or returns one.
#[verifier::external_type_specification]
#[verifier::external_body]
pub struct ExTryFromSliceError(core::array::TryFromSliceError);

/// `solana_sdk::hash::Hash`: the validity token of a recent block.
#[verifier::external_type_specification]
#[verifier::external_body]
pub struct ExHash(solana_sdk::hash::Hash);

/// One element of a batch: the instructions of one transaction, in order.
pub type InstructionGroup = Vec<Instruction>;

/// What a batch comes to when every element went through: one signature for
/// each element, in the order of the elements.
pub type BatchResult = Vec<Signature>;

/// The instruction that `ComputeBudgetInstruction::set_compute_unit_limit`
/// builds for a limit of `units` compute units.
pub uninterp spec fn compute_unit_limit_instruction(units: u32) -> Instruction;

/// The instruction that `ComputeBudgetInstruction::set_compute_unit_price`
/// builds for a price of `micro_lamports` per compute unit.
pub uninterp spec fn compute_unit_price_instruction(micro_lamports: u64) -> Instruction;

/// Calls `ComputeBudgetInstruction::set_compute_unit_limit`. Trusted: the
/// instruction depends on `units` alone. The SDK encodes the variant with
/// borsh into a fresh byte vector, which cannot fail, so the call returns
/// for every `units`.
#[verifier::external_body]
pub(crate) fn set_compute_unit_limit(units: u32) -> (ix: Instruction)
    ensures
        ix == compute_unit_limit_instruction(units),
{
    ComputeBudgetInstruction::set_compute_unit_limit(units)
}

/// Calls `ComputeBudgetInstruction::set_compute_unit_price`. Trusted: the
/// instruction depends on `micro_lamports` alone, and the call returns for
/// every price.
#[verifier::external_body]
pub(crate) fn set_compute_unit_price(micro_lamports: u64) -> (ix: Instruction)
    ensures
        ix == compute_unit_price_instruction(micro_lamports),
{
    ComputeBudgetInstruction::set_compute_unit_price(micro_lamports)
}

/// Calls `Instruction::clone`. Trusted: the derived clone copies the program
/// id, the account list and the data, so the copy is the same instruction.
#[verifier::external_body]
fn clone_instruction(ix: &Instruction) -> (copy: Instruction)
    ensures
        copy == *ix,
{
    ix.clone()
}

/// A copy of an instruction list, element by element and in order.
pub fn copy_instructions(source: &InstructionGroup) -> (copy: InstructionGroup)
    ensures
        copy@ == source@,
{
    let mut copy: InstructionGroup = Vec::new();
    let mut i: usize = 0;
    while i < source.len()
        invariant
            i <= source.len(),
            copy@ == source@.take(i as int),
        decreases source.len() - i,
    {
        copy.push(clone_instruction(&source[i]));
        i = i + 1;
        assert(source@.take(i as int) == source@.take(i - 1).push(source@[i - 1]));
    }
    assert(source@.take(source.len() as int) == source@);
    copy
}

} // verus!
