//! Core arithmetic of a two-asset constant-product automated market maker.
//!
//! The library computes swap quotes, liquidity-provider share issuance and
//! redemption, and the post-trade constant-product drift check, all over
//! plain integer values under the invariant `reserve_a * reserve_b = k`.
//!
//! Reading reserves and balances from the ledger and moving assets between
//! accounts is the host's concern: every operation here takes a snapshot of
//! those values and returns either a fully determined outcome — the exact
//! amounts the host must move — or an error, with no partial effect.

use vstd::prelude::*;

pub mod errors;
pub mod guard;
pub mod laws;
pub mod lifecycle;
pub mod liquidity;
pub mod math;
pub mod state;
pub mod swap;

pub use errors::ErrorCode;
pub use lifecycle::initialize_pool;
pub use liquidity::add_liquidity;
pub use liquidity::remove_liquidity;
pub use state::AssetId;
pub use state::PoolInfo;
pub use swap::buy;
pub use swap::sell;
pub use swap::BuyInstructionData;
pub use swap::SellInstructionData;

verus! {

/// Basis points in one whole: 10000 bps = 100%.
pub const BPS_DENOMINATOR: u64 = 10000;

/// Largest trading fee a pool may charge, in basis points (3%).
pub const MAX_FEE_BPS: u64 = 300;

/// Smallest slippage tolerance a trader may declare, in basis points (0.1%).
pub const MIN_SLIPPAGE_BPS: u64 = 10;

/// Largest slippage tolerance a trader may declare, in basis points (100%).
pub const MAX_SLIPPAGE_BPS: u64 = 10000;

/// Numerator of the tolerated constant-product drift after a trade.
pub const MAX_DRIFT_NUMERATOR: u128 = 1;

/// Denominator of the tolerated constant-product drift: together with the
/// numerator, a trade may lose at most 1/100000 (0.001%) of the product.
pub const DRIFT_DENOMINATOR: u128 = 100000;

} // verus!
