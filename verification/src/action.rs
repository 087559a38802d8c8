use vstd::prelude::*;

use crate::address::Address;
use crate::amount::Amount;

verus! {

/// What the engine asks its driver to do next on the chain. The driver
/// performs the read or write with the real chain client and answers with
/// a [`ChainEvent`].
#[derive(Clone, Copy, Debug)]
pub enum ChainAction {
    /// Read `holder`'s balance in the fungible asset `token`.
    ReadTokenBalance { token: Address, holder: Address },
    /// Read `holder`'s native-asset balance.
    ReadNativeBalance { holder: Address },
    /// Read the allowance `holder` has granted the settlement contract in
    /// the fungible asset `token`.
    ReadAllowance { token: Address, holder: Address },
    /// Submit, and wait for confirmation of, a call that sets the
    /// settlement contract's allowance from `holder` in `token` to exactly
    /// `amount`.
    SubmitApprove { token: Address, holder: Address, amount: Amount },
    /// Submit, and wait for confirmation of, a direct native-asset
    /// transfer of `amount` from `from` to the settlement contract.
    SubmitNativeTransfer { from: Address, amount: Amount },
    /// Submit, and wait for confirmation of, the batched settlement call
    /// with the engine's fully resolved amounts.
    SubmitSettlement,
    /// The engine is finished: it is either done or aborted, and its phase
    /// says which.
    Halt,
}

/// What came back from the chain for the pending action.
#[derive(Clone, Copy, Debug)]
pub enum ChainEvent {
    /// The balance a read returned.
    Balance { value: Amount },
    /// The allowance a read returned.
    Allowance { value: Amount },
    /// The pending submission was confirmed.
    Confirmed,
    /// The pending read or submission failed for infrastructural reasons.
    Failed,
}

} // verus!
