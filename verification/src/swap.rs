//! Swap quoting: two symmetric, non-commutative operations sharing one
//! constant-product algorithm, with the fee applied on opposite sides.
//!
//! `buy` charges the fee on the input side before the curve is applied;
//! `sell` charges it on the output side after. Both validate the trader's
//! declared slippage tolerance and amount, quote against the reserves
//! passed in, and hold the realized reserve change to the drift guard.
//! Neither mutates the pool record: the outcome names the exact transfer
//! amounts, and the host commits them only on success.

use vstd::prelude::*;
use crate::errors::ErrorCode;
use crate::guard;
use crate::math::bps_share;
use crate::math::gross_out;
use crate::math::lemma_bps_share_bounds;
use crate::math::lemma_bps_share_strict;
use crate::math::lemma_new_reserve_out_bounds;
use crate::math::lemma_u64_product_fits;
use crate::state::PoolInfo;
use crate::BPS_DENOMINATOR;
use crate::MAX_FEE_BPS;
use crate::MAX_SLIPPAGE_BPS;
use crate::MIN_SLIPPAGE_BPS;

verus! {

/// A trader's request to buy: spend `amount` of the input asset, accept
/// at most `slippage` basis points of shortfall against the quote.
#[derive(Clone, Copy, Debug, PartialEq, Eq, Structural)]
pub struct BuyInstructionData {
    pub amount: u64,
    pub slippage: u64,
    pub is_buy: bool,
}

/// A trader's request to sell, with the same fields as a buy.
#[derive(Clone, Copy, Debug, PartialEq, Eq, Structural)]
pub struct SellInstructionData {
    pub amount: u64,
    pub slippage: u64,
    pub is_buy: bool,
}

/// The balance movements a successful swap commits the host to:
/// `amount_in` of the input asset from trader to pool, `amount_out` of
/// the output asset from pool to trader. The fee is already reflected in
/// the pair and stays with the pool.
#[derive(Clone, Copy, Debug, PartialEq, Eq, Structural)]
pub struct SwapOutcome {
    pub amount_in: u64,
    pub amount_out: u64,
    pub fee_amount: u128,
}

/// A declared slippage tolerance the engine accepts.
pub open spec fn valid_slippage(slippage_bps: u64) -> bool {
    MIN_SLIPPAGE_BPS <= slippage_bps <= MAX_SLIPPAGE_BPS
}

/// What [`quote_buy`] returns: the fee is taken from the input side, the
/// remainder moves the curve, and the quote is the gross payout of the
/// constant-product step together with the fee withheld.
pub open spec fn spec_quote_buy(
    amount_in: u64,
    slippage_bps: u64,
    reserve_in: u64,
    reserve_out: u64,
    fee_bps: u64,
) -> Result<(u128, u128), ErrorCode> {
    if !valid_slippage(slippage_bps) {
        Err(ErrorCode::InvalidSlippageValue)
    } else if amount_in == 0 {
        Err(ErrorCode::InvalidSwapAmount)
    } else {
        let fee = bps_share(amount_in as int, fee_bps as int);
        let gross = gross_out(reserve_in as int, reserve_out as int, amount_in - fee);
        Ok(((gross as u128), (fee as u128)))
    }
}

/// What [`quote_sell`] returns: the full amount moves the curve, the fee
/// is taken from the gross payout, and the quote is the net payout
/// together with the fee withheld.
pub open spec fn spec_quote_sell(
    amount_in: u64,
    slippage_bps: u64,
    reserve_in: u64,
    reserve_out: u64,
    fee_bps: u64,
) -> Result<(u128, u128), ErrorCode> {
    if !valid_slippage(slippage_bps) {
        Err(ErrorCode::InvalidSlippageValue)
    } else if amount_in == 0 {
        Err(ErrorCode::InvalidSwapAmount)
    } else {
        let gross = gross_out(reserve_in as int, reserve_out as int, amount_in as int);
        let fee = bps_share(gross, fee_bps as int);
        Ok((((gross - fee) as u128), (fee as u128)))
    }
}

/// Quote a buy of `amount_in` against the given reserves.
///
/// The result is a function of the arguments alone: calling it twice on
/// identical inputs returns identical values. Every arithmetic step is
/// proved to fit in 128 bits, so no overflow kind can arise here.
pub fn quote_buy(
    amount_in: u64,
    slippage_bps: u64,
    reserve_in: u64,
    reserve_out: u64,
    fee_bps: u64,
) -> (r: Result<(u128, u128), ErrorCode>)
    requires
        fee_bps <= MAX_FEE_BPS,
    ensures
        r == spec_quote_buy(amount_in, slippage_bps, reserve_in, reserve_out, fee_bps),
        r matches Ok(q) ==> q.0 <= reserve_out && q.1 < amount_in,
{
    if slippage_bps > MAX_SLIPPAGE_BPS || slippage_bps < MIN_SLIPPAGE_BPS {
        return Err(ErrorCode::InvalidSlippageValue);
    }
    if amount_in == 0 {
        return Err(ErrorCode::InvalidSwapAmount);
    }
    let amount = amount_in as u128;

    // The fee never overflows and always leaves a positive net input.
    proof {
        lemma_u64_product_fits(amount_in as int, fee_bps as int);
        lemma_bps_share_strict(amount_in as int, fee_bps as int);
    }
    let fee_amount = amount * (fee_bps as u128) / (BPS_DENOMINATOR as u128);
    let net_input = amount - fee_amount;

    let input_reserve = reserve_in as u128;
    let output_reserve = reserve_out as u128;
    let new_input_reserve = input_reserve + net_input;
    proof {
        lemma_u64_product_fits(reserve_in as int, reserve_out as int);
        lemma_new_reserve_out_bounds(reserve_in as int, reserve_out as int, net_input as int);
    }
    let constant_product = input_reserve * output_reserve;
    let new_output_reserve = constant_product / new_input_reserve;

    let gross_output_amount = match output_reserve.checked_sub(new_output_reserve) {
        Some(v) => v,
        None => {
            // Unreachable: the updated output reserve never exceeds the old one.
            return Err(ErrorCode::InsufficientLiquidity);
        },
    };

    // The slippage floor can never lie above the quote itself.
    proof {
        lemma_u64_product_fits(gross_output_amount as int, slippage_bps as int);
        lemma_bps_share_bounds(gross_output_amount as int, slippage_bps as int);
    }
    let slippage_value = gross_output_amount * (slippage_bps as u128) / (BPS_DENOMINATOR as u128);
    let min_output_amount = gross_output_amount - slippage_value;
    if gross_output_amount < min_output_amount {
        return Err(ErrorCode::InsufficientOutputAmount);
    }
    Ok((gross_output_amount, fee_amount))
}

/// Quote a sell of `amount_in` against the given reserves.
///
/// As with [`quote_buy`], the result is a function of the arguments
/// alone, and no arithmetic step can overflow.
pub fn quote_sell(
    amount_in: u64,
    slippage_bps: u64,
    reserve_in: u64,
    reserve_out: u64,
    fee_bps: u64,
) -> (r: Result<(u128, u128), ErrorCode>)
    requires
        fee_bps <= MAX_FEE_BPS,
    ensures
        r == spec_quote_sell(amount_in, slippage_bps, reserve_in, reserve_out, fee_bps),
        r matches Ok(q) ==> q.0 <= reserve_out && q.1 <= reserve_out,
{
    if slippage_bps > MAX_SLIPPAGE_BPS || slippage_bps < MIN_SLIPPAGE_BPS {
        return Err(ErrorCode::InvalidSlippageValue);
    }
    if amount_in == 0 {
        return Err(ErrorCode::InvalidSwapAmount);
    }
    // No fee on the input side: the full amount moves the curve.
    let net_input = amount_in as u128;

    let input_reserve = reserve_in as u128;
    let output_reserve = reserve_out as u128;
    let new_input_reserve = input_reserve + net_input;
    proof {
        lemma_u64_product_fits(reserve_in as int, reserve_out as int);
        lemma_new_reserve_out_bounds(reserve_in as int, reserve_out as int, net_input as int);
    }
    let constant_product = input_reserve * output_reserve;
    let new_output_reserve = constant_product / new_input_reserve;

    let gross_output_amount = match output_reserve.checked_sub(new_output_reserve) {
        Some(v) => v,
        None => {
            // Unreachable: the updated output reserve never exceeds the old one.
            return Err(ErrorCode::InsufficientLiquidity);
        },
    };

    // The fee is taken from the output side and never exceeds the payout.
    proof {
        lemma_u64_product_fits(gross_output_amount as int, fee_bps as int);
        lemma_bps_share_bounds(gross_output_amount as int, fee_bps as int);
    }
    let fee_amount = gross_output_amount * (fee_bps as u128) / (BPS_DENOMINATOR as u128);
    let net_output_amount = gross_output_amount - fee_amount;

    proof {
        lemma_u64_product_fits(net_output_amount as int, slippage_bps as int);
        lemma_bps_share_bounds(net_output_amount as int, slippage_bps as int);
    }
    let slippage_value = net_output_amount * (slippage_bps as u128) / (BPS_DENOMINATOR as u128);
    let min_output_amount = net_output_amount - slippage_value;
    if net_output_amount < min_output_amount {
        return Err(ErrorCode::InsufficientOutputAmount);
    }
    Ok((net_output_amount, fee_amount))
}

/// What [`buy`] decides, composed from the quote and the drift guard.
pub open spec fn spec_buy(
    fee_bps: u64,
    amount: u64,
    slippage: u64,
    user_balance_in: u64,
    reserve_in: u64,
    reserve_out: u64,
) -> Result<SwapOutcome, ErrorCode> {
    if !valid_slippage(slippage) {
        Err(ErrorCode::InvalidSlippageValue)
    } else if amount == 0 {
        Err(ErrorCode::InvalidSwapAmount)
    } else if amount > user_balance_in {
        Err(ErrorCode::InsufficientTokenBBalance)
    } else {
        match spec_quote_buy(amount, slippage, reserve_in, reserve_out, fee_bps) {
            Ok(q) => {
                let net = amount - q.1;
                match guard::spec_check(reserve_in as u128, reserve_out as u128, net as u128, q.0) {
                    Ok(u) => Ok(
                        SwapOutcome {
                            amount_in: amount,
                            amount_out: q.0 as u64,
                            fee_amount: q.1,
                        },
                    ),
                    Err(e) => Err(e),
                }
            },
            Err(e) => Err(e),
        }
    }
}

/// What [`sell`] decides, composed from the quote and the drift guard.
pub open spec fn spec_sell(
    fee_bps: u64,
    amount: u64,
    slippage: u64,
    user_balance_in: u64,
    reserve_in: u64,
    reserve_out: u64,
) -> Result<SwapOutcome, ErrorCode> {
    if !valid_slippage(slippage) {
        Err(ErrorCode::InvalidSlippageValue)
    } else if amount == 0 {
        Err(ErrorCode::InvalidSwapAmount)
    } else if amount > user_balance_in {
        Err(ErrorCode::InsufficientTokenABalance)
    } else {
        match spec_quote_sell(amount, slippage, reserve_in, reserve_out, fee_bps) {
            Ok(q) => {
                match guard::spec_check(reserve_in as u128, reserve_out as u128, amount as u128, q.0) {
                    Ok(u) => Ok(
                        SwapOutcome {
                            amount_in: amount,
                            amount_out: q.0 as u64,
                            fee_amount: q.1,
                        },
                    ),
                    Err(e) => Err(e),
                }
            },
            Err(e) => Err(e),
        }
    }
}

/// Decide a buy: the trader spends `swap.amount` of the input asset and
/// receives the gross constant-product payout of the output asset. The
/// fee, charged on the input side, stays in the pool's input reserve.
///
/// `user_balance_in` and the reserves are the ledger balances the host
/// read for this operation; on `Ok` the host must move exactly the two
/// outcome amounts, and nothing on `Err`.
pub fn buy(
    pool: &PoolInfo,
    swap: BuyInstructionData,
    user_balance_in: u64,
    reserve_in: u64,
    reserve_out: u64,
) -> (r: Result<SwapOutcome, ErrorCode>)
    requires
        pool.wf(),
    ensures
        r == spec_buy(
            pool.fees,
            swap.amount,
            swap.slippage,
            user_balance_in,
            reserve_in,
            reserve_out,
        ),
        r matches Ok(o) ==> o.amount_in == swap.amount && o.amount_out <= reserve_out,
{
    if swap.slippage > MAX_SLIPPAGE_BPS || swap.slippage < MIN_SLIPPAGE_BPS {
        return Err(ErrorCode::InvalidSlippageValue);
    }
    if swap.amount == 0 {
        return Err(ErrorCode::InvalidSwapAmount);
    }
    if swap.amount > user_balance_in {
        return Err(ErrorCode::InsufficientTokenBBalance);
    }
    let quote = match quote_buy(swap.amount, swap.slippage, reserve_in, reserve_out, pool.fees) {
        Ok(q) => q,
        Err(e) => {
            return Err(e);
        },
    };
    let net_input = swap.amount as u128 - quote.1;
    match guard::check(reserve_in as u128, reserve_out as u128, net_input, quote.0) {
        Ok(u) => (),
        Err(e) => {
            return Err(e);
        },
    }
    Ok(SwapOutcome { amount_in: swap.amount, amount_out: quote.0 as u64, fee_amount: quote.1 })
}

/// Decide a sell: the trader spends `swap.amount` of the input asset in
/// full and receives the constant-product payout net of the fee, which is
/// charged on the output side and stays in the pool's output reserve.
pub fn sell(
    pool: &PoolInfo,
    swap: SellInstructionData,
    user_balance_in: u64,
    reserve_in: u64,
    reserve_out: u64,
) -> (r: Result<SwapOutcome, ErrorCode>)
    requires
        pool.wf(),
    ensures
        r == spec_sell(
            pool.fees,
            swap.amount,
            swap.slippage,
            user_balance_in,
            reserve_in,
            reserve_out,
        ),
        r matches Ok(o) ==> o.amount_in == swap.amount && o.amount_out <= reserve_out,
{
    if swap.slippage > MAX_SLIPPAGE_BPS || swap.slippage < MIN_SLIPPAGE_BPS {
        return Err(ErrorCode::InvalidSlippageValue);
    }
    if swap.amount == 0 {
        return Err(ErrorCode::InvalidSwapAmount);
    }
    if swap.amount > user_balance_in {
        return Err(ErrorCode::InsufficientTokenABalance);
    }
    let quote = match quote_sell(swap.amount, swap.slippage, reserve_in, reserve_out, pool.fees) {
        Ok(q) => q,
        Err(e) => {
            return Err(e);
        },
    };
    match guard::check(reserve_in as u128, reserve_out as u128, swap.amount as u128, quote.0) {
        Ok(u) => (),
        Err(e) => {
            return Err(e);
        },
    }
    Ok(SwapOutcome { amount_in: swap.amount, amount_out: quote.0 as u64, fee_amount: quote.1 })
}

} // verus!
