//! The arithmetic of the quoting algorithm, stated over unbounded integers,
//! and the facts about it that the operation contracts rest on.

use vstd::prelude::*;
use vstd::arithmetic::div_mod::lemma_div_by_multiple;
use vstd::arithmetic::div_mod::lemma_div_is_ordered;
use vstd::arithmetic::div_mod::lemma_div_pos_is_pos;
use vstd::arithmetic::div_mod::lemma_fundamental_div_mod;
use vstd::arithmetic::div_mod::lemma_fundamental_div_mod_converse;
use vstd::arithmetic::mul::lemma_mul_inequality;
use vstd::arithmetic::mul::lemma_mul_is_commutative;
use vstd::arithmetic::mul::lemma_mul_is_distributive_add;
use vstd::arithmetic::mul::lemma_mul_nonnegative;
use vstd::arithmetic::mul::lemma_mul_upper_bound;
use crate::BPS_DENOMINATOR;

verus! {

/// The share of `amount` that `bps` basis points name, rounded down:
/// `floor(amount * bps / 10000)`. Fees and slippage allowances are both
/// such shares.
pub open spec fn bps_share(amount: int, bps: int) -> int {
    amount * bps / (BPS_DENOMINATOR as int)
}

/// The output reserve after the constant-product step: the old product
/// divided by the grown input reserve, rounded down.
pub open spec fn new_reserve_out(reserve_in: int, reserve_out: int, net_input: int) -> int {
    (reserve_in * reserve_out) / (reserve_in + net_input)
}

/// The gross amount the constant-product step pays out: whatever of the
/// output reserve the updated reserve no longer retains.
pub open spec fn gross_out(reserve_in: int, reserve_out: int, net_input: int) -> int {
    reserve_out - new_reserve_out(reserve_in, reserve_out, net_input)
}

/// A basis-point share never exceeds the amount it is taken of.
pub proof fn lemma_bps_share_bounds(amount: int, bps: int)
    requires
        0 <= amount,
        0 <= bps <= BPS_DENOMINATOR,
    ensures
        0 <= bps_share(amount, bps) <= amount,
{
    let d = BPS_DENOMINATOR as int;
    lemma_mul_nonnegative(amount, bps);
    lemma_div_pos_is_pos(amount * bps, d);
    lemma_mul_inequality(bps, d, amount);
    lemma_mul_is_commutative(amount, bps);
    lemma_mul_is_commutative(amount, d);
    lemma_div_is_ordered(amount * bps, amount * d, d);
    lemma_div_by_multiple(amount, d);
}

/// A basis-point share strictly below one whole leaves something of a
/// positive amount.
pub proof fn lemma_bps_share_strict(amount: int, bps: int)
    requires
        1 <= amount,
        0 <= bps < BPS_DENOMINATOR,
    ensures
        0 <= bps_share(amount, bps) < amount,
{
    let d = BPS_DENOMINATOR as int;
    lemma_mul_nonnegative(amount, bps);
    lemma_div_pos_is_pos(amount * bps, d);
    // amount * bps <= amount * (d - 1) == amount * d - amount <= amount * d - 1
    lemma_mul_inequality(bps, d - 1, amount);
    lemma_mul_is_commutative(amount, bps);
    lemma_mul_is_commutative(amount, d - 1);
    lemma_mul_is_distributive_add(amount, d - 1, 1);
    lemma_div_is_ordered(amount * bps, amount * d - 1, d);
    // (amount * d - 1) / d == amount - 1
    lemma_fundamental_div_mod_converse(amount * d - 1, d, amount - 1, d - 1);
    lemma_mul_is_distributive_add(d, amount - 1, 1);
    lemma_mul_is_commutative(amount - 1, d);
    lemma_mul_is_commutative(amount, d);
}

/// The updated output reserve stays between zero and the old output
/// reserve.
pub proof fn lemma_new_reserve_out_bounds(reserve_in: int, reserve_out: int, net_input: int)
    requires
        0 <= reserve_in,
        0 <= reserve_out,
        1 <= net_input,
    ensures
        0 <= new_reserve_out(reserve_in, reserve_out, net_input) <= reserve_out,
{
    let d = reserve_in + net_input;
    lemma_mul_nonnegative(reserve_in, reserve_out);
    lemma_div_pos_is_pos(reserve_in * reserve_out, d);
    lemma_mul_inequality(reserve_in, d, reserve_out);
    lemma_div_is_ordered(reserve_in * reserve_out, d * reserve_out, d);
    lemma_mul_is_commutative(d, reserve_out);
    lemma_div_by_multiple(reserve_out, d);
}

/// The constant-product step loses exactly the division remainder: the
/// product of the updated reserves falls short of the old product by
/// `(reserve_in * reserve_out) % (reserve_in + net_input)`, which is less
/// than one unit of the output asset valued at the new input reserve.
pub proof fn lemma_product_after_step(reserve_in: int, reserve_out: int, net_input: int)
    requires
        0 <= reserve_in,
        0 <= reserve_out,
        1 <= net_input,
    ensures
        (reserve_in + net_input) * new_reserve_out(reserve_in, reserve_out, net_input)
            == reserve_in * reserve_out - (reserve_in * reserve_out) % (reserve_in + net_input),
        (reserve_in + net_input) * new_reserve_out(reserve_in, reserve_out, net_input)
            <= reserve_in * reserve_out,
        reserve_in * reserve_out
            < (reserve_in + net_input) * (new_reserve_out(reserve_in, reserve_out, net_input) + 1),
{
    let k = reserve_in * reserve_out;
    let d = reserve_in + net_input;
    lemma_mul_nonnegative(reserve_in, reserve_out);
    lemma_fundamental_div_mod(k, d);
    lemma_mul_is_distributive_add(d, k / d, 1);
}

/// The product of two values bounded by `u64::MAX` fits in a `u128`.
pub proof fn lemma_u64_product_fits(x: int, y: int)
    requires
        0 <= x <= u64::MAX,
        0 <= y <= u64::MAX,
    ensures
        0 <= x * y <= u128::MAX,
{
    lemma_mul_nonnegative(x, y);
    lemma_mul_upper_bound(x, u64::MAX as int, y, u64::MAX as int);
}

} // verus!
