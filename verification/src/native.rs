use vstd::prelude::*;

use crate::amount::Amount;

verus! {

/// The decision for one native-asset leg.
#[derive(Clone, Copy, Debug)]
pub enum NativeOutcome {
    /// The resolved amount is zero: nothing to move, no chain interaction.
    Skip,
    /// The holder's native balance is short of the resolved amount.
    Insufficient,
    /// Submit a direct value transfer of exactly `amount`.
    Transfer { amount: Amount },
}

/// Decide the native-asset leg for one holder: a zero amount is a no-op,
/// a funded non-zero amount becomes a direct value transfer of exactly
/// that amount, and an underfunded one is a balance failure.
pub fn native_check(balance: &Amount, amount: &Amount) -> (r: NativeOutcome)
    ensures
        amount.as_nat() == 0 ==> r is Skip,
        amount.as_nat() > 0 && balance.as_nat() < amount.as_nat() ==> r is Insufficient,
        amount.as_nat() > 0 && balance.as_nat() >= amount.as_nat() ==> r
            == (NativeOutcome::Transfer { amount: *amount }),
{
    if amount.is_zero() {
        NativeOutcome::Skip
    } else if balance.lt(amount) {
        NativeOutcome::Insufficient
    } else {
        NativeOutcome::Transfer { amount: *amount }
    }
}

} // verus!
