use vstd::prelude::*;

use crate::amount::Amount;

verus! {

/// The check-and-elevate decision for one (asset, holder) pair.
#[derive(Clone, Copy, Debug)]
pub enum GateOutcome {
    /// The holder's balance is short of the needed amount: terminal for
    /// the whole request, before any chain write is attempted.
    Insufficient,
    /// The allowance is short: raise it to exactly `amount` (never add to
    /// the existing allowance) before proceeding.
    Elevate { amount: Amount },
    /// Balance and allowance both cover the needed amount: no chain write.
    Authorized,
}

/// Decide, for one (asset, holder) pair, whether the resolved amount is
/// funded and authorized.
///
/// The balance check comes first and wins: a shortfall is reported even
/// when the allowance is also short. An elevation is requested exactly
/// when the balance suffices but the allowance does not, and it asks for
/// exactly the needed amount. When the existing allowance already covers
/// the need, no elevation is requested.
pub fn gate_check(balance: &Amount, allowance: &Amount, needed: &Amount) -> (r: GateOutcome)
    ensures
        balance.as_nat() < needed.as_nat() ==> r is Insufficient,
        balance.as_nat() >= needed.as_nat() && allowance.as_nat() < needed.as_nat() ==> r
            == (GateOutcome::Elevate { amount: *needed }),
        balance.as_nat() >= needed.as_nat() && allowance.as_nat() >= needed.as_nat() ==> r
            is Authorized,
{
    if balance.lt(needed) {
        GateOutcome::Insufficient
    } else if allowance.lt(needed) {
        GateOutcome::Elevate { amount: *needed }
    } else {
        GateOutcome::Authorized
    }
}

} // verus!
