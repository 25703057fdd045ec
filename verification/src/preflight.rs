//! The balance check that comes before anything is built or sent.

use crate::error::FailureKind;
use vstd::prelude::*;

verus! {

/// Checks that the fee payer has something to spend. The check is cheap and
/// made once: a balance of zero fails it, and nothing is retried. A positive
/// balance may still prove too small when the transaction is submitted; that
/// is then the submitter's error.
pub fn check_balance(balance: u64) -> (checked: Result<(), FailureKind>)
    ensures
        balance > 0 <==> checked is Ok,
        balance == 0 <==> checked == Err::<(), FailureKind>(FailureKind::InsufficientFunds),
{
    if balance > 0 {
        Ok(())
    } else {
        Err(FailureKind::InsufficientFunds)
    }
}

} // verus!
