//! Arithmetic facts behind the fixed-point pricing engine: the widened
//! products the engine forms never leave 128-bit range, and a quoted
//! price never exceeds the fixed-point scale.

use vstd::prelude::*;
use vstd::arithmetic::div_mod::{lemma_div_by_multiple, lemma_div_is_ordered, lemma_div_pos_is_pos};
use vstd::arithmetic::mul::lemma_mul_inequality;

verus! {

/// Fixed-point scale of quoted prices: a price is an integer out of
/// 1,000,000 and stands for the probability of one outcome.
pub const PRICE_SCALE: u64 = 1000000;

/// Quoted price of one side: the opposite side's share of the total
/// liquidity, scaled to `PRICE_SCALE` and rounded down.
pub open spec fn spec_price(opposite: int, total: int) -> int {
    opposite * PRICE_SCALE / total
}

/// The product of two 64-bit values always fits the widened 128-bit range.
pub proof fn lemma_u64_mul_fits_u128(a: u64, b: u64)
    ensures
        a * b <= u128::MAX,
{
    assert(a * b <= u64::MAX * u64::MAX) by (nonlinear_arith)
        requires
            0 <= a <= u64::MAX,
            0 <= b <= u64::MAX,
    ;
}

/// A quoted price lies between 0 and the fixed-point scale: the opposite
/// reserve is at most the total, so its scaled share is at most the scale.
pub proof fn lemma_price_le_scale(opposite: int, total: int)
    requires
        0 <= opposite <= total,
        0 < total,
    ensures
        0 <= spec_price(opposite, total) <= PRICE_SCALE,
{
    lemma_div_pos_is_pos(opposite * PRICE_SCALE, total);
    lemma_mul_inequality(opposite, total, PRICE_SCALE as int);
    lemma_div_is_ordered(opposite * PRICE_SCALE, total * PRICE_SCALE, total);
    lemma_div_by_multiple(PRICE_SCALE as int, total);
}

} // verus!
