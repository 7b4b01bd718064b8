//! Liquidity provision: co-deposit ratio balancing, LP-share minting, and
//! pro-rata redemption.
//!
//! A deposit declares amounts of both assets; asset A's amount is
//! authoritative and asset B must at least cover the pool's ratio for it.
//! A withdrawal burns LP shares for a proportional slice of both
//! reserves. Both operations update the pool's liquidity accounting and
//! leave it untouched on any error.

use vstd::prelude::*;
use crate::errors::ErrorCode;
use crate::math::lemma_u64_product_fits;
use crate::state::AssetId;
use crate::state::PoolInfo;

verus! {

/// What a successful deposit commits the host to: move the two deposit
/// amounts from trader to pool and mint `lp_minted` LP shares to the
/// trader.
#[derive(Clone, Copy, Debug, PartialEq, Eq, Structural)]
pub struct AddLiquidityOutcome {
    pub deposit_a: u64,
    pub deposit_b: u64,
    pub lp_minted: u128,
}

/// What a successful withdrawal commits the host to: move the two
/// amounts from pool to trader and burn the offered LP shares.
#[derive(Clone, Copy, Debug, PartialEq, Eq, Structural)]
pub struct RemoveLiquidityOutcome {
    pub amount_a: u64,
    pub amount_b: u64,
}

/// How much of asset B the pool's ratio demands for a deposit of
/// `amount_a` of asset A: `floor(amount_a * reserve_b / reserve_a)`.
pub open spec fn spec_required_b(amount_a: u64, reserve_a: u64, reserve_b: u64) -> int {
    (amount_a as int) * (reserve_b as int) / (reserve_a as int)
}

/// What [`add_liquidity`] decides.
///
/// On the first deposit (`total_liquidity == 0`) both declared amounts
/// are taken as they stand and the LP supply is seeded one-to-one with
/// asset A's deposit. Afterwards the deposit of B is the ratio-balanced
/// amount (declared excess is not consumed), and the mint is the minimum
/// of the two declared amounts' shares of the supply, which protects
/// existing holders when a caller overstates one side.
pub open spec fn spec_add_liquidity(
    total_liquidity: u128,
    amount_one: u64,
    amount_two: u64,
    reserve_a: u64,
    reserve_b: u64,
    user_balance_a: u64,
    user_balance_b: u64,
) -> Result<AddLiquidityOutcome, ErrorCode> {
    if total_liquidity > 0 && reserve_a == 0 {
        Err(ErrorCode::ZeroReserve)
    } else if total_liquidity > 0 && (amount_two as int) < spec_required_b(
        amount_one,
        reserve_a,
        reserve_b,
    ) {
        Err(ErrorCode::InsufficientTokenB)
    } else {
        let deposit_a = amount_one;
        let deposit_b = if total_liquidity > 0 {
            spec_required_b(amount_one, reserve_a, reserve_b) as u64
        } else {
            amount_two
        };
        if user_balance_a < deposit_a || user_balance_b < deposit_b {
            Err(ErrorCode::InsufficientFunds)
        } else if total_liquidity == 0 {
            Ok(
                AddLiquidityOutcome {
                    deposit_a,
                    deposit_b,
                    lp_minted: amount_one as u128,
                },
            )
        } else {
            let lp_a_numerator = (amount_one as int) * (total_liquidity as int);
            let lp_b_numerator = (amount_two as int) * (total_liquidity as int);
            if lp_a_numerator > u128::MAX || lp_b_numerator > u128::MAX {
                Err(ErrorCode::Overflow)
            } else if reserve_b == 0 {
                Err(ErrorCode::Overflow)
            } else {
                let lp_for_a = lp_a_numerator / (reserve_a as int);
                let lp_for_b = lp_b_numerator / (reserve_b as int);
                let lp = if lp_for_a <= lp_for_b {
                    lp_for_a
                } else {
                    lp_for_b
                };
                if total_liquidity + lp > u128::MAX {
                    Err(ErrorCode::Overflow)
                } else {
                    Ok(
                        AddLiquidityOutcome {
                            deposit_a,
                            deposit_b,
                            lp_minted: lp as u128,
                        },
                    )
                }
            }
        }
    }
}

/// What [`remove_liquidity`] decides: burning `liquidity` LP shares
/// redeems `floor(liquidity * reserve / total_liquidity)` of each
/// reserve; dust redemptions that round to zero are rejected, and the
/// reserves are defensively required to cover the payout.
pub open spec fn spec_remove_liquidity(
    total_liquidity: u128,
    liquidity: u64,
    reserve_a: u64,
    reserve_b: u64,
    user_lp_balance: u64,
) -> Result<RemoveLiquidityOutcome, ErrorCode> {
    if liquidity == 0 {
        Err(ErrorCode::InvalidAmount)
    } else if total_liquidity == 0 {
        Err(ErrorCode::InsufficientLiquidity)
    } else if liquidity > user_lp_balance {
        Err(ErrorCode::InsufficientLPTokens)
    } else {
        let amount_a = (liquidity as int) * (reserve_a as int) / (total_liquidity as int);
        let amount_b = (liquidity as int) * (reserve_b as int) / (total_liquidity as int);
        if amount_a == 0 || amount_b == 0 {
            Err(ErrorCode::InvalidCalculatedAmount)
        } else if (reserve_a as int) < amount_a {
            Err(ErrorCode::InsufficientPoolTokenA)
        } else if (reserve_b as int) < amount_b {
            Err(ErrorCode::InsufficientPoolTokenB)
        } else if liquidity > total_liquidity {
            Err(ErrorCode::Overflow)
        } else {
            Ok(RemoveLiquidityOutcome { amount_a: amount_a as u64, amount_b: amount_b as u64 })
        }
    }
}

/// Deposit liquidity into the pool.
///
/// The reserves and the trader's balances are the ledger values the host
/// read for this operation. On `Ok` the pool's LP supply has grown by
/// the minted amount and the LP asset is bound; the host must then move
/// the two deposits and mint the shares. On `Err` the pool is unchanged.
pub fn add_liquidity(
    pool: &mut PoolInfo,
    lp_mint: AssetId,
    amount_one: u64,
    amount_two: u64,
    reserve_a: u64,
    reserve_b: u64,
    user_balance_a: u64,
    user_balance_b: u64,
) -> (r: Result<AddLiquidityOutcome, ErrorCode>)
    ensures
        r == spec_add_liquidity(
            old(pool).total_liquidity,
            amount_one,
            amount_two,
            reserve_a,
            reserve_b,
            user_balance_a,
            user_balance_b,
        ),
        r matches Ok(o) ==> {
            &&& final(pool).total_liquidity == old(pool).total_liquidity + o.lp_minted
            &&& final(pool).lp_mint == Some(lp_mint)
            &&& final(pool).pool == old(pool).pool
            &&& final(pool).mint_a == old(pool).mint_a
            &&& final(pool).mint_b == old(pool).mint_b
            &&& final(pool).fees == old(pool).fees
        },
        r is Err ==> *final(pool) == *old(pool),
{
    let total_liquidity = pool.total_liquidity;
    let amount_a = amount_one as u128;
    let amount_b = amount_two as u128;
    let reserve_a_full = reserve_a as u128;
    let reserve_b_full = reserve_b as u128;

    // Balance the declared amounts against the pool's ratio.
    let required_amount_b: u64 = if total_liquidity > 0 {
        if reserve_a == 0 {
            return Err(ErrorCode::ZeroReserve);
        }
        proof {
            lemma_u64_product_fits(amount_one as int, reserve_b as int);
        }
        let balanced_amount_b = amount_a * reserve_b_full / reserve_a_full;
        if amount_b < balanced_amount_b {
            return Err(ErrorCode::InsufficientTokenB);
        }
        // Covered by the declared amount, so the balanced amount fits in 64 bits.
        balanced_amount_b as u64
    } else {
        amount_two
    };
    let required_amount_a: u64 = amount_one;

    if user_balance_a < required_amount_a || user_balance_b < required_amount_b {
        return Err(ErrorCode::InsufficientFunds);
    }

    let lp_amount: u128 = if total_liquidity == 0 {
        // First deposit: seed the LP supply one-to-one with asset A.
        amount_a
    } else {
        let lp_for_a = match amount_a.checked_mul(total_liquidity) {
            Some(v) => v / reserve_a_full,
            None => {
                return Err(ErrorCode::Overflow);
            },
        };
        let lp_b_numerator = match amount_b.checked_mul(total_liquidity) {
            Some(v) => v,
            None => {
                return Err(ErrorCode::Overflow);
            },
        };
        if reserve_b == 0 {
            return Err(ErrorCode::Overflow);
        }
        let lp_for_b = lp_b_numerator / reserve_b_full;
        if lp_for_a <= lp_for_b {
            lp_for_a
        } else {
            lp_for_b
        }
    };

    let new_total_liquidity = match total_liquidity.checked_add(lp_amount) {
        Some(v) => v,
        None => {
            return Err(ErrorCode::Overflow);
        },
    };
    pool.total_liquidity = new_total_liquidity;
    pool.lp_mint = Some(lp_mint);
    Ok(
        AddLiquidityOutcome {
            deposit_a: required_amount_a,
            deposit_b: required_amount_b,
            lp_minted: lp_amount,
        },
    )
}

/// Withdraw liquidity from the pool by burning `liquidity` LP shares.
///
/// On `Ok` the pool's LP supply has shrunk by the burned amount; the
/// host must then move the two redemption amounts to the trader and burn
/// the shares. On `Err` the pool is unchanged.
pub fn remove_liquidity(
    pool: &mut PoolInfo,
    liquidity: u64,
    reserve_a: u64,
    reserve_b: u64,
    user_lp_balance: u64,
) -> (r: Result<RemoveLiquidityOutcome, ErrorCode>)
    ensures
        r == spec_remove_liquidity(
            old(pool).total_liquidity,
            liquidity,
            reserve_a,
            reserve_b,
            user_lp_balance,
        ),
        r matches Ok(o) ==> {
            &&& final(pool).total_liquidity == old(pool).total_liquidity - liquidity
            &&& final(pool).lp_mint == old(pool).lp_mint
            &&& final(pool).pool == old(pool).pool
            &&& final(pool).mint_a == old(pool).mint_a
            &&& final(pool).mint_b == old(pool).mint_b
            &&& final(pool).fees == old(pool).fees
        },
        r is Err ==> *final(pool) == *old(pool),
{
    let lp_amount = liquidity as u128;
    let total_liquidity = pool.total_liquidity;

    if liquidity == 0 {
        return Err(ErrorCode::InvalidAmount);
    }
    if total_liquidity == 0 {
        return Err(ErrorCode::InsufficientLiquidity);
    }
    if liquidity > user_lp_balance {
        return Err(ErrorCode::InsufficientLPTokens);
    }

    proof {
        lemma_u64_product_fits(liquidity as int, reserve_a as int);
        lemma_u64_product_fits(liquidity as int, reserve_b as int);
    }
    let pool_token_a_amount = reserve_a as u128;
    let pool_token_b_amount = reserve_b as u128;
    let amount_a = lp_amount * pool_token_a_amount / total_liquidity;
    let amount_b = lp_amount * pool_token_b_amount / total_liquidity;

    if amount_a == 0 || amount_b == 0 {
        return Err(ErrorCode::InvalidCalculatedAmount);
    }
    if pool_token_a_amount < amount_a {
        return Err(ErrorCode::InsufficientPoolTokenA);
    }
    if pool_token_b_amount < amount_b {
        return Err(ErrorCode::InsufficientPoolTokenB);
    }

    let new_total_liquidity = match total_liquidity.checked_sub(lp_amount) {
        Some(v) => v,
        None => {
            return Err(ErrorCode::Overflow);
        },
    };
    pool.total_liquidity = new_total_liquidity;
    Ok(RemoveLiquidityOutcome { amount_a: amount_a as u64, amount_b: amount_b as u64 })
}

} // verus!
