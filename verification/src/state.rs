//! Pool state: the durable record of a trading pair.

use vstd::prelude::*;
use crate::MAX_FEE_BPS;

verus! {

/// Identifier of an asset type or of an account: 32 bytes, as the host
/// ledger names them.
#[derive(Clone, Copy, Debug)]
pub struct AssetId {
    pub bytes: [u8; 32],
}

impl View for AssetId {
    type V = Seq<u8>;

    open spec fn view(&self) -> Seq<u8> {
        self.bytes@
    }
}

impl AssetId {
    pub fn new(bytes: [u8; 32]) -> (r: AssetId)
        ensures
            r@ == bytes@,
    {
        AssetId { bytes }
    }
}

impl PartialEq for AssetId {
    fn eq(&self, other: &Self) -> (r: bool) {
        let mut i: usize = 0;
        while i < 32
            invariant
                i <= 32,
                forall|j: int| 0 <= j < i ==> self.bytes@[j] == other.bytes@[j],
            decreases 32 - i,
        {
            if self.bytes[i] != other.bytes[i] {
                assert(self@ != other@);
                return false;
            }
            i = i + 1;
        }
        assert(self@ =~= other@);
        true
    }
}

impl vstd::std_specs::cmp::PartialEqSpecImpl for AssetId {
    open spec fn obeys_eq_spec() -> bool {
        true
    }

    open spec fn eq_spec(&self, other: &Self) -> bool {
        self@ == other@
    }
}

/// The durable record of one trading pair: its identity, fee and
/// liquidity accounting. Reserves are not stored here; they live with the
/// ledger and are read afresh for every operation.
#[derive(Clone, Copy, Debug)]
pub struct PoolInfo {
    /// The pool's own canonical address.
    pub pool: AssetId,
    /// Identifier of the first tradable asset.
    pub mint_a: AssetId,
    /// Identifier of the second tradable asset.
    pub mint_b: AssetId,
    /// Identifier of the LP-share asset, bound once liquidity is first
    /// added.
    pub lp_mint: Option<AssetId>,
    /// Trading fee in basis points, fixed at creation.
    pub fees: u64,
    /// Total outstanding LP-share supply.
    pub total_liquidity: u128,
}

impl PoolInfo {
    /// Well-formedness: the fee respects the cap and the pair is two
    /// distinct assets.
    pub open spec fn wf(self) -> bool {
        &&& self.fees <= MAX_FEE_BPS
        &&& self.mint_a@ != self.mint_b@
    }
}

} // verus!
