//! The laws of the quoting algorithm: what holds of every quote, proved
//! from the same spec functions the operation contracts use.

use vstd::prelude::*;
use vstd::arithmetic::div_mod::lemma_div_by_multiple;
use vstd::arithmetic::div_mod::lemma_div_by_self;
use vstd::arithmetic::div_mod::lemma_div_is_ordered;
use vstd::arithmetic::div_mod::lemma_fundamental_div_mod;
use vstd::arithmetic::mul::lemma_mul_inequality;
use vstd::arithmetic::mul::lemma_mul_is_commutative;
use vstd::arithmetic::mul::lemma_mul_is_distributive_add;
use crate::math::bps_share;
use crate::math::gross_out;
use crate::math::lemma_bps_share_bounds;
use crate::math::lemma_bps_share_strict;
use crate::math::lemma_new_reserve_out_bounds;
use crate::math::lemma_product_after_step;
use crate::math::new_reserve_out;
use crate::swap::spec_quote_buy;
use crate::BPS_DENOMINATOR;
use crate::MAX_FEE_BPS;

verus! {

/// Law: rounding only ever favors the pool. Whenever a buy quote
/// succeeds against positive reserves, the product of the updated
/// reserves never exceeds the product before the quote; and whenever
/// the old product covers the updated input reserve, the payout is
/// strictly less than the output reserve.
pub proof fn lemma_buy_rounding_favors_pool(
    amount_in: u64,
    slippage_bps: u64,
    reserve_in: u64,
    reserve_out: u64,
    fee_bps: u64,
)
    requires
        fee_bps <= MAX_FEE_BPS,
        reserve_in >= 1,
        reserve_out >= 1,
        spec_quote_buy(amount_in, slippage_bps, reserve_in, reserve_out, fee_bps) is Ok,
    ensures
        ({
            let quote = spec_quote_buy(amount_in, slippage_bps, reserve_in, reserve_out, fee_bps);
            let gross = quote->Ok_0.0 as int;
            let fee = quote->Ok_0.1 as int;
            let net = amount_in - fee;
            &&& gross <= reserve_out
            &&& (reserve_in + net) * (reserve_out - gross) <= (reserve_in as int) * (
            reserve_out as int)
            &&& (reserve_in as int) * (reserve_out as int) >= reserve_in + net ==> gross
                < reserve_out
        }),
{
    let r_in = reserve_in as int;
    let r_out = reserve_out as int;
    let fee = bps_share(amount_in as int, fee_bps as int);
    lemma_bps_share_strict(amount_in as int, fee_bps as int);
    let net = amount_in - fee;
    let q = new_reserve_out(r_in, r_out, net);
    lemma_new_reserve_out_bounds(r_in, r_out, net);
    lemma_product_after_step(r_in, r_out, net);
    if r_in * r_out >= r_in + net {
        // The old product covers one whole multiple of the updated input
        // reserve, so the updated output reserve retains at least one unit.
        lemma_div_is_ordered(r_in + net, r_in * r_out, r_in + net);
        lemma_div_by_self(r_in + net);
        assert(q >= 1);
    }
}

/// Law: with a zero fee, a trade leaves the constant product unchanged
/// up to integer rounding of the output reserve. The product of the
/// updated reserves does not exceed the product before, and falls short
/// of it by less than one unit of the output asset (one multiple of the
/// updated input reserve). With `fee_bps == 0` the basis-point share is
/// zero, so these reserves are exactly the ones a fee-free buy or sell
/// of `amount_in` realizes.
pub proof fn lemma_zero_fee_trade_preserves_product(
    amount_in: u64,
    reserve_in: u64,
    reserve_out: u64,
)
    requires
        amount_in >= 1,
    ensures
        bps_share(amount_in as int, 0) == 0,
        bps_share(gross_out(reserve_in as int, reserve_out as int, amount_in as int), 0) == 0,
        ({
            let k = (reserve_in as int) * (reserve_out as int);
            let new_in = reserve_in + amount_in;
            let new_out = new_reserve_out(reserve_in as int, reserve_out as int, amount_in as int);
            &&& new_in * new_out <= k
            &&& k < new_in * (new_out + 1)
        }),
{
    let r_in = reserve_in as int;
    let r_out = reserve_out as int;
    lemma_product_after_step(r_in, r_out, amount_in as int);
}

/// Law: a round trip strictly loses value whenever the sell fee
/// outweighs the rounding slack. Selling `amount` of asset A, applying
/// the resulting balance movements to the reserves, and then buying
/// with the full proceeds of asset B returns strictly less of asset A
/// than was sold, provided the fee withheld on the sell covers the
/// output reserve spread over the updated input reserve:
/// `(reserve_a + amount) * (fee_on_sell - 1) >= reserve_b`.
///
/// Below that bound the fee can round down to nothing while the quote's
/// own floor division works in the trader's favor, and the round trip
/// need not lose anything.
pub proof fn lemma_round_trip_loses_value(
    amount: u64,
    reserve_a: u64,
    reserve_b: u64,
    fee_bps: u64,
)
    requires
        1 <= amount,
        1 <= reserve_a,
        1 <= reserve_b,
        1 <= fee_bps <= MAX_FEE_BPS,
        ({
            let g1 = gross_out(reserve_a as int, reserve_b as int, amount as int);
            (reserve_a + amount) * (bps_share(g1, fee_bps as int) - 1) >= reserve_b
        }),
    ensures
        ({
            let g1 = gross_out(reserve_a as int, reserve_b as int, amount as int);
            let fee1 = bps_share(g1, fee_bps as int);
            let proceeds = g1 - fee1;
            let a2 = reserve_a + amount;
            let b2 = reserve_b - proceeds;
            let fee2 = bps_share(proceeds, fee_bps as int);
            gross_out(b2, a2, proceeds - fee2) < amount
        }),
{
    let x = amount as int;
    let r_a = reserve_a as int;
    let r_b = reserve_b as int;
    let f = fee_bps as int;
    let k = r_a * r_b;
    let a2 = r_a + x;

    // The sell: q1 is what the output reserve retains, g1 the gross payout.
    let q1 = new_reserve_out(r_a, r_b, x);
    let g1 = r_b - q1;
    lemma_new_reserve_out_bounds(r_a, r_b, x);
    lemma_product_after_step(r_a, r_b, x);

    let fee1 = bps_share(g1, f);
    lemma_bps_share_bounds(g1, f);
    let proceeds = g1 - fee1;
    let b2 = r_b - proceeds;
    assert(b2 == q1 + fee1);

    // The buy back: fee on the input side, remainder moves the curve.
    let fee2 = bps_share(proceeds, f);
    if proceeds >= 1 {
        lemma_bps_share_strict(proceeds, f);
    } else {
        assert(proceeds == 0);
        assert(fee2 == 0) by {
            assert(0int * f == 0int);
            assert(bps_share(0int, f) == 0int / (BPS_DENOMINATOR as int));
        }
    }
    let net2 = proceeds - fee2;
    let divisor = b2 + net2;
    assert(divisor == r_b - fee2);
    assert(1 <= divisor <= r_b);

    // The product the buy back divides: at least the old product plus the
    // sell fee, less one rounding unit of the updated input reserve.
    let k2 = b2 * a2;
    assert(k2 == a2 * q1 + a2 * fee1) by {
        lemma_mul_is_commutative(b2, a2);
        lemma_mul_is_distributive_add(a2, q1, fee1);
    }
    assert(a2 * q1 >= k - a2 + 1) by {
        lemma_product_after_step(r_a, r_b, x);
        assert(a2 * q1 == k - k % a2);
        lemma_fundamental_div_mod(k, a2);
        assert(k % a2 < a2);
    }
    assert(k2 >= k - a2 + 1 + a2 * fee1);

    // The hypothesis turns the fee into enough product to cover a whole
    // extra multiple of the divisor.
    assert(a2 * fee1 == a2 * (fee1 - 1) + a2) by {
        lemma_mul_is_distributive_add(a2, fee1 - 1, 1);
    }
    assert(k2 >= k + r_b + 1 - a2 + a2 - 1 - 1 + 1);
    assert(k2 >= (r_a + 1) * divisor) by {
        assert((r_a + 1) * divisor <= (r_a + 1) * r_b) by {
            lemma_mul_inequality(divisor, r_b, r_a + 1);
            lemma_mul_is_commutative(divisor, r_a + 1);
            lemma_mul_is_commutative(r_b, r_a + 1);
        }
        assert((r_a + 1) * r_b == k + r_b) by {
            lemma_mul_is_distributive_add(r_b, r_a, 1);
            lemma_mul_is_commutative(r_b, r_a);
            lemma_mul_is_commutative(r_a + 1, r_b);
        }
    }

    // So the buy back's quotient reaches past the whole pre-trade reserve
    // of A, and what it pays out stays under the amount sold.
    assert(k2 / divisor >= r_a + 1) by {
        lemma_div_is_ordered((r_a + 1) * divisor, k2, divisor);
        lemma_div_by_multiple(r_a + 1, divisor);
        lemma_mul_is_commutative(r_a + 1, divisor);
    }
    assert(gross_out(b2, a2, net2) == a2 - k2 / divisor) by {
        lemma_mul_is_commutative(b2, a2);
    }
}

} // verus!
