//! Failure kinds of the pool operations.
//!
//! Every error is terminal for the operation that raised it: nothing is
//! retried and no partial state change is observable. The overflow variants
//! name the arithmetic step that failed, purely for diagnosability.

use vstd::prelude::*;

verus! {

/// The reasons a pool operation is rejected.
#[derive(Clone, Copy, Debug, PartialEq, Eq, Structural)]
pub enum ErrorCode {
    /// `initialize_pool`: the requested fee exceeds [`crate::MAX_FEE_BPS`].
    FeeTooHigh,
    /// `initialize_pool`: both sides of the pair are the same asset.
    SameTokenPool,
    /// `initialize_pool`: the claimed pool address is not the canonical
    /// address derived for the pair.
    InvalidTokenOrder,
    /// A swap declared a slippage tolerance outside the accepted band.
    InvalidSlippageValue,
    /// A swap declared a zero input amount.
    InvalidSwapAmount,
    /// `sell`: the trader's balance of the input asset does not cover the
    /// declared amount.
    InsufficientTokenABalance,
    /// `buy`: the trader's balance of the input asset does not cover the
    /// declared amount.
    InsufficientTokenBBalance,
    /// The pool cannot serve the request: the constant-product step would
    /// pay out more than the pool holds, or a withdrawal was asked of a
    /// pool with no outstanding LP shares.
    InsufficientLiquidity,
    /// The realizable output fell short of the slippage floor.
    InsufficientOutputAmount,
    /// A swap's fee computation overflowed.
    IntegerOverflowFeeAmount,
    /// A swap's net input computation underflowed.
    IntegerOverflowNetInput,
    /// A swap's updated input reserve overflowed.
    IntegerOverflowNewInputReserve,
    /// The constant product of the reserves overflowed.
    IntegerOverflowK,
    /// The updated output reserve computation failed.
    IntegerOverflowNewOutputReserve,
    /// A sell's net output computation underflowed.
    IntegerOverflowNetOutputAmount,
    /// The slippage allowance computation overflowed.
    IntegerOverflowSlippageValue,
    /// The slippage floor computation underflowed.
    IntegerOverflowMinOutputAmount,
    /// The drift check's simulated reserves overflowed.
    IntegerOverflow11,
    /// The drift check's simulated constant product overflowed.
    IntegerOverflow12,
    /// The constant product after a trade fell below the tolerated drift.
    ConstantProductInvariantViolated,
    /// `add_liquidity` against a pool whose first reserve is empty.
    ZeroReserve,
    /// `add_liquidity`: the declared amount of asset B does not cover the
    /// pool's ratio for the declared amount of asset A.
    InsufficientTokenB,
    /// `add_liquidity`: the trader's balances do not cover the deposits.
    InsufficientFunds,
    /// A liquidity computation overflowed.
    Overflow,
    /// `remove_liquidity` of zero LP shares.
    InvalidAmount,
    /// `remove_liquidity`: the trader holds fewer LP shares than offered.
    InsufficientLPTokens,
    /// `remove_liquidity`: a redemption amount rounded down to zero.
    InvalidCalculatedAmount,
    /// `remove_liquidity`: the redemption of asset A overflowed.
    OverflowRemoveLiquidityA,
    /// `remove_liquidity`: the redemption of asset B overflowed.
    OverflowRemoveLiquidityB,
    /// `remove_liquidity`: the pool's reserve of asset A does not cover the
    /// redemption.
    InsufficientPoolTokenA,
    /// `remove_liquidity`: the pool's reserve of asset B does not cover the
    /// redemption.
    InsufficientPoolTokenB,
}

} // verus!
