use babyswap::errors::ErrorCode;
use babyswap::lifecycle::initialize_pool;
use babyswap::state::AssetId;

fn id(n: u8) -> AssetId {
    AssetId::new([n; 32])
}

/// The canonical pool address for a pair, derived the same way the host
/// environment derives it.
fn canonical_pool_address(mint_b: &AssetId, program: &AssetId) -> AssetId {
    let program_key = solana_program::pubkey::Pubkey::new_from_array(program.bytes);
    let (key, _bump) = solana_program::pubkey::Pubkey::try_find_program_address(
        &[b"pool", mint_b.bytes.as_slice()],
        &program_key,
    )
    .expect("no viable bump seed");
    AssetId::new(key.to_bytes())
}

#[test]
fn fee_301_rejected() {
    let r = initialize_pool(301, id(1), id(2), id(3), id(4));
    assert_eq!(r.unwrap_err(), ErrorCode::FeeTooHigh);
}

#[test]
fn fee_300_accepted() {
    let program = id(4);
    let claimed = canonical_pool_address(&id(2), &program);
    let pool = initialize_pool(300, id(1), id(2), claimed, program).unwrap();
    assert_eq!(pool.fees, 300);
    assert_eq!(pool.total_liquidity, 0);
    assert!(pool.lp_mint.is_none());
    assert!(pool.pool == claimed);
    assert!(pool.mint_a == id(1));
    assert!(pool.mint_b == id(2));
}

#[test]
fn same_token_pool_rejected() {
    let r = initialize_pool(100, id(2), id(2), id(3), id(4));
    assert_eq!(r.unwrap_err(), ErrorCode::SameTokenPool);
}

#[test]
fn non_canonical_address_rejected() {
    let r = initialize_pool(100, id(1), id(2), id(9), id(4));
    assert_eq!(r.unwrap_err(), ErrorCode::InvalidTokenOrder);
}

#[test]
fn canonical_address_accepted() {
    let program = id(7);
    let claimed = canonical_pool_address(&id(5), &program);
    let pool = initialize_pool(0, id(6), id(5), claimed, program).unwrap();
    assert_eq!(pool.fees, 0);
    assert!(pool.pool == claimed);
}

#[test]
fn address_depends_on_pair() {
    let program = id(4);
    let claimed_for_other_pair = canonical_pool_address(&id(8), &program);
    let r = initialize_pool(100, id(1), id(2), claimed_for_other_pair, program);
    assert_eq!(r.unwrap_err(), ErrorCode::InvalidTokenOrder);
}
