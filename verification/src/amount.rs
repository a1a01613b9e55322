//! Integer arithmetic for proportional shares and the platform fee.
//!
//! A share is `total * bps / 10000` and the fee is a hundredth of a share.
//! Both divisions drop the fraction, toward zero.

use vstd::prelude::*;

verus! {

/// The basis points that make up the whole.
pub const BPS_SCALE: i128 = 10_000;

/// The platform keeps one part in this many of every released share.
pub const FEE_DIVISOR: i128 = 100;

/// `a / d` with the fraction dropped toward zero, for a positive `d`.
pub open spec fn quotient(a: int, d: int) -> int
    recommends
        d > 0,
{
    if a >= 0 {
        a / d
    } else {
        -((-a) / d)
    }
}

/// The part of `total` that `bps` basis points stand for.
pub open spec fn share(total: int, bps: int) -> int {
    quotient(total * bps, 10_000)
}

/// The platform fee on a released amount.
pub open spec fn fee(amount: int) -> int {
    quotient(amount, 100)
}

/// The product from which a share is computed fits the amount type.
pub open spec fn share_fits(total: int, bps: int) -> bool {
    i128::MIN <= total * bps <= i128::MAX
}

/// The share of `total` for `bps` basis points, or `None` where the product
/// `total * bps` does not fit.
pub fn checked_share(total: i128, bps: u32) -> (r: Option<i128>)
    ensures
        r is Some == share_fits(total as int, bps as int),
        r is Some ==> r->Some_0 == share(total as int, bps as int),
{
    match total.checked_mul(bps as i128) {
        Some(product) => Some(product / BPS_SCALE),
        None => None,
    }
}

/// Splits a released amount into what the developer receives and the fee.
pub fn split_fee(amount: i128) -> (parts: (i128, i128))
    ensures
        parts.1 == fee(amount as int),
        parts.0 == amount - fee(amount as int),
{
    let fee_amount: i128 = amount / FEE_DIVISOR;
    (amount - fee_amount, fee_amount)
}

/// A share of a non-negative total is not negative and misses the exact
/// proportion `total * bps / 10000` by less than one unit, never exceeding it.
pub proof fn lemma_share_rounding(total: int, bps: int)
    requires
        0 <= total,
        0 <= bps,
    ensures
        0 <= share(total, bps),
        10_000 * share(total, bps) <= total * bps < 10_000 * share(total, bps) + 10_000,
{
    let product = total * bps;
    assert(0 <= product) by (nonlinear_arith)
        requires
            product == total * bps,
            0 <= total,
            0 <= bps,
    ;
    assert(product == 10_000 * (product / 10_000) + product % 10_000) by {
        vstd::arithmetic::div_mod::lemma_fundamental_div_mod(product, 10_000);
    }
    assert(0 <= product % 10_000 < 10_000);
}

/// A share of a non-negative total for at most the whole of the basis points
/// lies between zero and the total.
pub proof fn lemma_share_bounds(total: int, bps: int)
    requires
        0 <= total,
        0 <= bps <= 10_000,
    ensures
        0 <= share(total, bps) <= total,
{
    lemma_share_rounding(total, bps);
    assert(total * bps <= total * 10_000) by (nonlinear_arith)
        requires
            0 <= total,
            0 <= bps <= 10_000,
    ;
}

/// The fee never exceeds the amount, and neither part of a non-negative
/// amount is negative.
pub proof fn lemma_fee_bounds(amount: int)
    requires
        0 <= amount,
    ensures
        0 <= fee(amount) <= amount,
        100 * fee(amount) <= amount < 100 * fee(amount) + 100,
{
    assert(amount == 100 * (amount / 100) + amount % 100) by {
        vstd::arithmetic::div_mod::lemma_fundamental_div_mod(amount, 100);
    }
}

} // verus!
