use vstd::prelude::*;

use crate::address::Address;
use crate::amount::Amount;

verus! {

/// The shape invariant of a request: one amount row per token, and one
/// entry per party in every row.
pub open spec fn matrix_shaped(n_tokens: nat, n_parties: nat, amounts: Seq<Vec<Amount>>) -> bool {
    &&& amounts.len() == n_tokens
    &&& forall|i: int| 0 <= i < amounts.len() ==> (#[trigger] amounts[i])@.len() == n_parties
}

/// The first position at or after `i` whose token is the native asset.
pub open spec fn first_native_from(tokens: Seq<Address>, i: nat) -> Option<nat>
    decreases tokens.len() - i when i <= tokens.len()
{
    if i >= tokens.len() {
        None
    } else if tokens[i as int].is_native_spec() {
        Some(i)
    } else {
        first_native_from(tokens, i + 1)
    }
}

/// The first position at or after `i` whose token is a fungible asset.
pub open spec fn first_nonnative_from(tokens: Seq<Address>, i: nat) -> Option<nat>
    decreases tokens.len() - i when i <= tokens.len()
{
    if i >= tokens.len() {
        None
    } else if !tokens[i as int].is_native_spec() {
        Some(i)
    } else {
        first_nonnative_from(tokens, i + 1)
    }
}

/// A row takes part in resolution and movement when its token is a
/// fungible asset, or when it is the first native row. A repeated native
/// row is carried through the pipeline untouched.
pub open spec fn row_active(tokens: Seq<Address>, i: int) -> bool {
    !tokens[i].is_native_spec() || first_native_from(tokens, 0) == Some(i as nat)
}

/// The first position at or after `i` whose row takes part in resolution.
pub open spec fn next_active_row(tokens: Seq<Address>, i: nat) -> Option<nat>
    decreases tokens.len() - i when i <= tokens.len()
{
    if i >= tokens.len() {
        None
    } else if row_active(tokens, i as int) {
        Some(i)
    } else {
        next_active_row(tokens, i + 1)
    }
}

/// Whether row `t` takes part in resolution, decided at run time.
pub fn row_is_active(tokens: &Vec<Address>, t: usize) -> (r: bool)
    requires
        t < tokens@.len(),
    ensures
        r == row_active(tokens@, t as int),
{
    if !tokens[t].is_native() {
        return true;
    }
    match find_native(tokens, 0) {
        Some(j) => j == t,
        None => false,
    }
}

/// Shape-check a request: the matrix must have one row per token and one
/// entry per party in every row.
pub fn validate_shape(tokens: &Vec<Address>, n_parties: usize, amounts: &Vec<Vec<Amount>>) -> (r:
    bool)
    ensures
        r == matrix_shaped(tokens@.len(), n_parties as nat, amounts@),
{
    if amounts.len() != tokens.len() {
        return false;
    }
    let mut i: usize = 0;
    while i < amounts.len()
        invariant
            i <= amounts@.len(),
            forall|j: int| 0 <= j < i ==> (#[trigger] amounts@[j])@.len() == n_parties as nat,
        decreases amounts@.len() - i,
    {
        if amounts[i].len() != n_parties {
            return false;
        }
        i = i + 1;
    }
    true
}

/// Find the first native row at or after `start`.
pub fn find_native(tokens: &Vec<Address>, start: usize) -> (r: Option<usize>)
    requires
        start <= tokens@.len(),
    ensures
        match r {
            Some(j) => first_native_from(tokens@, start as nat) == Some(j as nat) && start <= j
                < tokens@.len() && tokens@[j as int].is_native_spec(),
            None => first_native_from(tokens@, start as nat) is None,
        },
{
    let mut i: usize = start;
    while i < tokens.len()
        invariant
            start <= i <= tokens@.len(),
            first_native_from(tokens@, start as nat) == first_native_from(tokens@, i as nat),
        decreases tokens@.len() - i,
    {
        if tokens[i].is_native() {
            return Some(i);
        }
        i = i + 1;
    }
    None
}

/// Find the first fungible-asset row at or after `start`.
pub fn find_nonnative(tokens: &Vec<Address>, start: usize) -> (r: Option<usize>)
    requires
        start <= tokens@.len(),
    ensures
        match r {
            Some(j) => first_nonnative_from(tokens@, start as nat) == Some(j as nat) && start <= j
                < tokens@.len() && !tokens@[j as int].is_native_spec(),
            None => first_nonnative_from(tokens@, start as nat) is None,
        },
{
    let mut i: usize = start;
    while i < tokens.len()
        invariant
            start <= i <= tokens@.len(),
            first_nonnative_from(tokens@, start as nat) == first_nonnative_from(tokens@, i as nat),
        decreases tokens@.len() - i,
    {
        if !tokens[i].is_native() {
            return Some(i);
        }
        i = i + 1;
    }
    None
}

} // verus!
