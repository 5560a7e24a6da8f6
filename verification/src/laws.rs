//! The laws of the pricing engine, proved once and for all: constant-product
//! preservation, price normalization, volume monotonicity, and the
//! positivity of post-trade liquidity.

use vstd::prelude::*;
use vstd::arithmetic::div_mod::{
    lemma_div_pos_is_pos, lemma_fundamental_div_mod, lemma_mod_division_less_than_divisor,
};
use crate::market::{apply_trade, pool_product, trade_ok, trade_result, Market};
use crate::math::{lemma_price_le_scale, PRICE_SCALE};

verus! {

/// A sequence of trades applied in order: each one takes effect when its
/// checked arithmetic passes and leaves the market unchanged when it
/// fails, exactly as `set_token_price` does.
pub open spec fn apply_trades(m: Market, trades: Seq<(u64, bool)>) -> Market
    decreases trades.len(),
{
    if trades.len() == 0 {
        m
    } else {
        apply_trades(apply_trade(m, trades[0].0, trades[0].1), trades.drop_first())
    }
}

/// Constant-product preservation: a successful trade restores the product
/// of the reserves to the pre-trade invariant `k` exactly, up to the floor
/// truncation of the one division that recomputes the replenished side —
/// the new product never exceeds `k` and falls short of it by less than
/// the consumed side's new reserve; when that division is exact, the
/// product is preserved exactly.
pub proof fn lemma_constant_product(m: Market, amount: u64, is_yes: bool)
    requires
        trade_ok(m, amount, is_yes),
    ensures
        ({
            let t = trade_result(m, amount, is_yes);
            let k = pool_product(m);
            &&& t.token_a_amount * t.token_b_amount <= k
            &&& is_yes ==> k < t.token_a_amount * t.token_b_amount + t.token_a_amount
            &&& !is_yes ==> k < t.token_a_amount * t.token_b_amount + t.token_b_amount
            &&& is_yes && k % (t.token_a_amount as int) == 0
                ==> t.token_a_amount * t.token_b_amount == k
            &&& !is_yes && k % (t.token_b_amount as int) == 0
                ==> t.token_a_amount * t.token_b_amount == k
        }),
{
    let t = trade_result(m, amount, is_yes);
    let k = pool_product(m);
    if is_yes {
        let d = m.token_a_amount - amount;
        lemma_fundamental_div_mod(k, d);
        lemma_mod_division_less_than_divisor(k, d);
        lemma_div_pos_is_pos(k, d);
        assert(t.token_a_amount == d);
        assert(t.token_b_amount == k / d);
        assert(t.token_a_amount * t.token_b_amount == d * (k / d));
    } else {
        let d = m.token_b_amount - amount;
        lemma_fundamental_div_mod(k, d);
        lemma_mod_division_less_than_divisor(k, d);
        lemma_div_pos_is_pos(k, d);
        assert(t.token_b_amount == d);
        assert(t.token_a_amount == k / d);
        assert(t.token_a_amount * t.token_b_amount == d * (k / d)) by (nonlinear_arith)
            requires
                t.token_a_amount == k / d,
                t.token_b_amount == d,
        ;
    }
}

/// A successful trade always leaves positive total liquidity: the consumed
/// side keeps at least one unit and the restored side is never negative,
/// so the zero-liquidity guard of the pricing step only ever sees a
/// positive total.
pub proof fn lemma_liquidity_positive(m: Market, amount: u64, is_yes: bool)
    requires
        trade_ok(m, amount, is_yes),
    ensures
        ({
            let t = trade_result(m, amount, is_yes);
            t.token_a_amount + t.token_b_amount > 0
        }),
{
    let k = pool_product(m);
    if is_yes {
        lemma_div_pos_is_pos(k, m.token_a_amount - amount);
    } else {
        lemma_div_pos_is_pos(k, m.token_b_amount - amount);
    }
}

/// Price normalization: after every successful trade the two quoted
/// prices sum to the fixed-point unit up to the rounding of the two floor
/// divisions — the sum is `PRICE_SCALE` or `PRICE_SCALE - 1`, and it is
/// exactly `PRICE_SCALE` precisely when the rescaling of the new NO-side
/// reserve divides the total liquidity evenly.
pub proof fn lemma_price_normalization(m: Market, amount: u64, is_yes: bool)
    requires
        trade_ok(m, amount, is_yes),
    ensures
        ({
            let t = trade_result(m, amount, is_yes);
            let total = t.token_a_amount + t.token_b_amount;
            &&& PRICE_SCALE - 1 <= t.token_price_a + t.token_price_b <= PRICE_SCALE
            &&& t.token_price_a + t.token_price_b == PRICE_SCALE
                <==> (t.token_b_amount * PRICE_SCALE) % total == 0
        }),
{
    lemma_liquidity_positive(m, amount, is_yes);
    let t = trade_result(m, amount, is_yes);
    let ta = t.token_a_amount as int;
    let tb = t.token_b_amount as int;
    let total = ta + tb;
    let scale = PRICE_SCALE as int;
    let qa = (tb * scale) / total;
    let ra = (tb * scale) % total;
    let qb = (ta * scale) / total;
    let rb = (ta * scale) % total;
    lemma_fundamental_div_mod(tb * scale, total);
    lemma_fundamental_div_mod(ta * scale, total);
    lemma_mod_division_less_than_divisor(tb * scale, total);
    lemma_mod_division_less_than_divisor(ta * scale, total);
    lemma_price_le_scale(tb, total);
    lemma_price_le_scale(ta, total);
    assert(t.token_price_a == qa);
    assert(t.token_price_b == qb);
    assert(total * scale == total * (qa + qb) + (ra + rb)) by (nonlinear_arith)
        requires
            tb * scale == total * qa + ra,
            ta * scale == total * qb + rb,
            total == ta + tb,
    ;
    assert(scale - 1 <= qa + qb <= scale) by (nonlinear_arith)
        requires
            total * scale == total * (qa + qb) + (ra + rb),
            0 <= ra < total,
            0 <= rb < total,
    ;
    assert(ra == 0 ==> qa + qb == scale) by (nonlinear_arith)
        requires
            total * scale == total * (qa + qb) + (ra + rb),
            0 <= rb < total,
            0 < total,
    ;
    assert(qa + qb == scale ==> ra == 0) by (nonlinear_arith)
        requires
            total * scale == total * (qa + qb) + (ra + rb),
            0 <= ra,
            0 <= rb,
    ;
}

/// Volume isolation: a YES trade never changes the cumulative NO volume
/// and never decreases the cumulative YES volume, whether it succeeds or
/// fails; symmetrically for a NO trade.
pub proof fn lemma_volume_isolation(m: Market, amount: u64)
    ensures
        apply_trade(m, amount, true).no_amount == m.no_amount,
        apply_trade(m, amount, true).yes_amount >= m.yes_amount,
        apply_trade(m, amount, false).yes_amount == m.yes_amount,
        apply_trade(m, amount, false).no_amount >= m.no_amount,
{
}

/// Monotonic volume: across any sequence of trades, some succeeding and
/// some failing, the cumulative YES and NO volumes never decrease.
pub proof fn lemma_monotonic_volume(m: Market, trades: Seq<(u64, bool)>)
    ensures
        apply_trades(m, trades).yes_amount >= m.yes_amount,
        apply_trades(m, trades).no_amount >= m.no_amount,
    decreases trades.len(),
{
    if trades.len() > 0 {
        let m1 = apply_trade(m, trades[0].0, trades[0].1);
        lemma_volume_isolation(m, trades[0].0);
        lemma_monotonic_volume(m1, trades.drop_first());
    }
}

} // verus!
