use vstd::prelude::*;

use crate::amount::{limit256, nats_of, Amount};
use crate::error::TransferError;
use crate::resolve::{resolve, resolve_fits, resolved_amount};

verus! {

/// The sum of a sequence of quantities.
pub open spec fn sum_of(s: Seq<nat>) -> nat
    decreases s.len(),
{
    if s.len() == 0 {
        0
    } else {
        sum_of(s.drop_last()) + s.last()
    }
}

pub proof fn lemma_sum_push(s: Seq<nat>, x: nat)
    ensures
        sum_of(s.push(x)) == sum_of(s) + x,
{
    assert(s.push(x).drop_last() =~= s);
}

pub proof fn lemma_sum_take_le(s: Seq<nat>, i: int)
    requires
        0 <= i <= s.len(),
    ensures
        sum_of(s.take(i)) <= sum_of(s),
    decreases s.len() - i,
{
    if i == s.len() {
        assert(s.take(i) =~= s);
    } else {
        assert(s.take(i + 1) =~= s.take(i).push(s[i]));
        lemma_sum_push(s.take(i), s[i]);
        lemma_sum_take_le(s, i + 1);
    }
}

/// Whether every entry of a requested row resolves against `balance`
/// without leaving the representable range.
pub open spec fn row_fits(is_percentage: bool, balance: nat, row: Seq<Amount>) -> bool {
    forall|j: int|
        0 <= j < row.len() ==> resolve_fits(is_percentage, balance, (#[trigger] row[j]).as_nat())
}

/// The values a requested row resolves to against `balance`.
pub open spec fn spec_resolved_nats(is_percentage: bool, balance: nat, row: Seq<Amount>) -> Seq<
    nat,
> {
    row.map_values(|a: Amount| resolved_amount(is_percentage, balance, a.as_nat()))
}

/// One resolved row against one balance: every entry fits and equals the
/// resolution of the corresponding requested entry.
pub open spec fn row_resolved_ok(
    is_percentage: bool,
    balance: nat,
    requested: Seq<Amount>,
    resolved: Seq<Amount>,
) -> bool {
    &&& resolved.len() == requested.len()
    &&& forall|j: int|
        0 <= j < requested.len() ==> (#[trigger] resolved[j]).as_nat() == resolved_amount(
            is_percentage,
            balance,
            requested[j].as_nat(),
        )
}

/// Resolve a whole row of requested entries against one holder balance.
///
/// Succeeds exactly when every entry of the row resolves without leaving
/// the representable range; the result then holds the resolved entries in
/// order. The first entry that cannot be represented fails the row with
/// `ArithmeticOverflow`.
pub fn resolve_row(is_percentage: bool, balance: &Amount, row: &Vec<Amount>) -> (r: Result<
    Vec<Amount>,
    TransferError,
>)
    ensures
        r is Ok <==> row_fits(is_percentage, balance.as_nat(), row@),
        r is Ok ==> row_resolved_ok(is_percentage, balance.as_nat(), row@, r.unwrap()@),
        r is Err ==> r.unwrap_err() == TransferError::ArithmeticOverflow,
{
    let mut out: Vec<Amount> = Vec::new();
    let mut i: usize = 0;
    while i < row.len()
        invariant
            i <= row@.len(),
            out@.len() == i as nat,
            forall|j: int|
                0 <= j < i ==> resolve_fits(
                    is_percentage,
                    balance.as_nat(),
                    (#[trigger] row@[j]).as_nat(),
                ),
            forall|j: int|
                0 <= j < i ==> (#[trigger] out@[j]).as_nat() == resolved_amount(
                    is_percentage,
                    balance.as_nat(),
                    row@[j].as_nat(),
                ),
        decreases row@.len() - i,
    {
        match resolve(is_percentage, balance, &row[i]) {
            Ok(a) => {
                out.push(a);
            },
            Err(e) => {
                return Err(e);
            },
        }
        i = i + 1;
    }
    Ok(out)
}

/// A fresh copy of a row of amounts.
pub fn copy_row(row: &Vec<Amount>) -> (r: Vec<Amount>)
    ensures
        r@ == row@,
{
    let mut out: Vec<Amount> = Vec::new();
    let mut i: usize = 0;
    while i < row.len()
        invariant
            i <= row@.len(),
            out@ =~= row@.take(i as int),
        decreases row@.len() - i,
    {
        out.push(row[i]);
        i = i + 1;
    }
    proof {
        assert(row@.take(row@.len() as int) =~= row@);
    }
    out
}

/// Sum a resolved row, detecting overflow.
///
/// Succeeds exactly when the mathematical sum of the row fits in 256 bits,
/// and then returns that sum; otherwise fails with `ArithmeticOverflow`.
pub fn sum_row(row: &Vec<Amount>) -> (r: Result<Amount, TransferError>)
    ensures
        r is Ok <==> sum_of(nats_of(row@)) < limit256(),
        r is Ok ==> r.unwrap().as_nat() == sum_of(nats_of(row@)),
        r is Err ==> r.unwrap_err() == TransferError::ArithmeticOverflow,
{
    let ghost values = nats_of(row@);
    let mut acc = Amount::zero();
    let mut i: usize = 0;
    assert(values.take(0) =~= Seq::<nat>::empty());
    while i < row.len()
        invariant
            i <= row@.len(),
            values == nats_of(row@),
            values.len() == row@.len(),
            acc.as_nat() == sum_of(values.take(i as int)),
        decreases row@.len() - i,
    {
        proof {
            assert(values.take(i + 1) =~= values.take(i as int).push(values[i as int]));
            lemma_sum_push(values.take(i as int), values[i as int]);
        }
        match acc.checked_add(&row[i]) {
            Some(next) => {
                acc = next;
            },
            None => {
                proof {
                    lemma_sum_take_le(values, i + 1);
                }
                return Err(TransferError::ArithmeticOverflow);
            },
        }
        i = i + 1;
    }
    proof {
        assert(values.take(row@.len() as int) =~= values);
        acc.lemma_bound();
    }
    Ok(acc)
}

} // verus!
