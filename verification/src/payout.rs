//! What a winning bet is paid.
//!
//! A winner receives its proportional share of everything staked, rounded
//! down. Rounding down is what keeps the escrow solvent: the shares of all
//! winners together never exceed what was staked. What rounding leaves over
//! stays in the escrow.

use vstd::prelude::*;

verus! {

/// The share of `total` that a stake of `amount` earns when `winning` was
/// staked on its side: `amount * total / winning`, rounded down.
pub open spec fn payout_share(amount: nat, total: nat, winning: nat) -> nat
    recommends
        winning > 0,
{
    (amount * total) / winning
}

/// A share, taken `winning` times, is at most `amount` times the total.
pub proof fn lemma_share_rounds_down(amount: nat, total: nat, winning: nat)
    requires
        winning > 0,
    ensures
        payout_share(amount, total, winning) * winning <= amount * total,
{
    let x = (amount * total) as int;
    let d = winning as int;
    vstd::arithmetic::div_mod::lemma_fundamental_div_mod(x, d);
    vstd::arithmetic::div_mod::lemma_mod_bound(x, d);
    assert((x / d) * d == d * (x / d)) by (nonlinear_arith);
}

/// Computes `payout_share` without overflow.
pub(crate) fn compute_share(amount: u64, total: u64, winning: u64) -> (p: u128)
    requires
        winning > 0,
    ensures
        p == payout_share(amount as nat, total as nat, winning as nat),
{
    assert(amount * total <= u128::MAX) by (nonlinear_arith)
        requires
            amount <= u64::MAX,
            total <= u64::MAX,
    ;
    let product: u128 = (amount as u128) * (total as u128);
    product / (winning as u128)
}

} // verus!
