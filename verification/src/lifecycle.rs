//! Pool creation: parameter validation and canonical-address enforcement.
//!
//! A pool exists once per asset pair. The host's address scheme derives
//! one canonical address for the pair, and creation rejects any claimed
//! address that does not match it, so no duplicate or shadow pool can be
//! created.

use vstd::prelude::*;
use crate::errors::ErrorCode;
use crate::state::AssetId;
use crate::state::PoolInfo;
use crate::MAX_FEE_BPS;

verus! {

/// The ASCII bytes of `pool`, the tag that prefixes the derivation seeds
/// of every pool address.
pub open spec fn pool_seed_tag() -> Seq<u8> {
    seq![112u8, 111u8, 111u8, 108u8]
}

/// The seed tag as a byte vector, for handing to the address derivation.
pub fn pool_seed_bytes() -> (v: Vec<u8>)
    ensures
        v@ == pool_seed_tag(),
{
    let mut v: Vec<u8> = Vec::new();
    v.push(112);
    v.push(111);
    v.push(111);
    v.push(108);
    proof {
        assert(v@ =~= pool_seed_tag());
    }
    v
}

/// The canonical address that the host's scheme derives from a seed tag,
/// an asset identifier and a program identifier; `None` in the
/// statistically improbable event that no address can be derived.
pub uninterp spec fn pool_address_of(seed_tag: Seq<u8>, asset: Seq<u8>, program: Seq<u8>) -> Option<
    Seq<u8>,
>;

/// Relies on `Pubkey::try_find_program_address` of solana-program: the
/// result is a function of the seeds and the program id alone, is a
/// 32-byte address, and is `None` only when no bump seed yields a valid
/// derived address.
#[verifier::external_body]
fn derive_pool_address(seed_tag: &Vec<u8>, asset: &[u8; 32], program_id: &[u8; 32]) -> (r: Option<
    [u8; 32],
>)
    ensures
        r matches Some(a) ==> Some(a@) == pool_address_of(seed_tag@, asset@, program_id@),
        r is None ==> pool_address_of(seed_tag@, asset@, program_id@) is None,
{
    let program = solana_program::pubkey::Pubkey::new_from_array(*program_id);
    solana_program::pubkey::Pubkey::try_find_program_address(
        &[seed_tag.as_slice(), asset.as_slice()],
        &program,
    ).map(|found| found.0.to_bytes())
}

/// What [`initialize_pool`] decides: the fee cap, the distinctness of
/// the pair, and the canonical-address match, in that order.
pub open spec fn spec_initialize_pool(
    fee: u64,
    mint_a: AssetId,
    mint_b: AssetId,
    claimed_pool: AssetId,
    program_id: AssetId,
) -> Result<PoolInfo, ErrorCode> {
    if fee > MAX_FEE_BPS {
        Err(ErrorCode::FeeTooHigh)
    } else if mint_a@ == mint_b@ {
        Err(ErrorCode::SameTokenPool)
    } else if pool_address_of(pool_seed_tag(), mint_b@, program_id@) != Some(claimed_pool@) {
        Err(ErrorCode::InvalidTokenOrder)
    } else {
        Ok(
            PoolInfo {
                pool: claimed_pool,
                mint_a,
                mint_b,
                lp_mint: None,
                fees: fee,
                total_liquidity: 0,
            },
        )
    }
}

/// Create the pool record for a pair, rejecting a fee above the cap, a
/// pair of one asset, and a claimed address other than the canonical
/// one. On success the record starts with no liquidity and no LP asset
/// bound.
pub fn initialize_pool(
    fee: u64,
    mint_a: AssetId,
    mint_b: AssetId,
    claimed_pool: AssetId,
    program_id: AssetId,
) -> (r: Result<PoolInfo, ErrorCode>)
    ensures
        r == spec_initialize_pool(fee, mint_a, mint_b, claimed_pool, program_id),
        r matches Ok(p) ==> p.wf(),
{
    if fee > MAX_FEE_BPS {
        return Err(ErrorCode::FeeTooHigh);
    }
    if mint_a == mint_b {
        return Err(ErrorCode::SameTokenPool);
    }
    let seed_tag = pool_seed_bytes();
    let derived = derive_pool_address(&seed_tag, &mint_b.bytes, &program_id.bytes);
    let matched = match derived {
        Some(address) => {
            let derived_id = AssetId::new(address);
            derived_id == claimed_pool
        },
        None => false,
    };
    if !matched {
        return Err(ErrorCode::InvalidTokenOrder);
    }
    Ok(
        PoolInfo {
            pool: claimed_pool,
            mint_a,
            mint_b,
            lp_mint: None,
            fees: fee,
            total_liquidity: 0,
        },
    )
}

} // verus!
