use vstd::prelude::*;

use crate::amount::{limit256, Amount};
use crate::error::TransferError;

verus! {

/// Whether a requested entry can be resolved without leaving the
/// representable range: absolute amounts always can, a percentage can when
/// the intermediate product `balance * requested` fits in 256 bits.
pub open spec fn resolve_fits(is_percentage: bool, balance: nat, requested: nat) -> bool {
    is_percentage ==> balance * requested < limit256()
}

/// The absolute quantity a requested entry stands for: the entry itself
/// when it is absolute, `floor(balance * requested / 100)` when it is a
/// percentage of the holder's balance.
pub open spec fn resolved_amount(is_percentage: bool, balance: nat, requested: nat) -> nat {
    if is_percentage {
        (balance * requested) / 100
    } else {
        requested
    }
}

/// Turn one requested entry into an absolute quantity.
///
/// An absolute entry is returned unchanged. A percentage entry becomes
/// `floor(balance * requested / 100)`, computed on the full intermediate
/// product; if that product cannot be represented in 256 bits the call
/// fails with `ArithmeticOverflow` and never wraps. Division by the
/// constant 100 itself never fails.
pub fn resolve(is_percentage: bool, balance: &Amount, requested: &Amount) -> (r: Result<
    Amount,
    TransferError,
>)
    ensures
        r is Ok <==> resolve_fits(is_percentage, balance.as_nat(), requested.as_nat()),
        r is Ok ==> r.unwrap().as_nat() == resolved_amount(
            is_percentage,
            balance.as_nat(),
            requested.as_nat(),
        ),
        r is Err ==> r.unwrap_err() == TransferError::ArithmeticOverflow,
{
    if is_percentage {
        match balance.checked_mul(requested) {
            Some(product) => {
                let hundred = Amount::from_u64(100);
                match product.checked_div(&hundred) {
                    Some(q) => Ok(q),
                    None => Err(TransferError::ArithmeticOverflow),
                }
            },
            None => Err(TransferError::ArithmeticOverflow),
        }
    } else {
        Ok(*requested)
    }
}

} // verus!
