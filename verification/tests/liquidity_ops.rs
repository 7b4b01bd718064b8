use babyswap::errors::ErrorCode;
use babyswap::liquidity::add_liquidity;
use babyswap::liquidity::remove_liquidity;
use babyswap::state::AssetId;
use babyswap::state::PoolInfo;

fn id(n: u8) -> AssetId {
    AssetId::new([n; 32])
}

fn pool_with_liquidity(total_liquidity: u128) -> PoolInfo {
    PoolInfo {
        pool: id(9),
        mint_a: id(1),
        mint_b: id(2),
        lp_mint: None,
        fees: 30,
        total_liquidity,
    }
}

#[test]
fn add_bootstrap_seeds_one_to_one() {
    let mut pool = pool_with_liquidity(0);
    let outcome = add_liquidity(&mut pool, id(7), 1000, 500, 0, 0, 1000, 500).unwrap();
    assert_eq!(outcome.deposit_a, 1000);
    assert_eq!(outcome.deposit_b, 500);
    assert_eq!(outcome.lp_minted, 1000);
    assert_eq!(pool.total_liquidity, 1000);
    assert!(pool.lp_mint == Some(id(7)));
}

#[test]
fn add_balances_ratio_and_mints_minimum() {
    let mut pool = pool_with_liquidity(1000);
    let outcome = add_liquidity(&mut pool, id(7), 100, 500, 1000, 2000, 100, 500).unwrap();
    assert_eq!(outcome.deposit_a, 100);
    assert_eq!(outcome.deposit_b, 200);
    assert_eq!(outcome.lp_minted, 100);
    assert_eq!(pool.total_liquidity, 1100);
}

#[test]
fn add_zero_reserve_rejected() {
    let mut pool = pool_with_liquidity(1000);
    let r = add_liquidity(&mut pool, id(7), 100, 500, 0, 2000, 100, 500);
    assert_eq!(r.unwrap_err(), ErrorCode::ZeroReserve);
    assert_eq!(pool.total_liquidity, 1000);
    assert!(pool.lp_mint.is_none());
}

#[test]
fn add_insufficient_token_b_rejected() {
    let mut pool = pool_with_liquidity(1000);
    let r = add_liquidity(&mut pool, id(7), 100, 199, 1000, 2000, 100, 199);
    assert_eq!(r.unwrap_err(), ErrorCode::InsufficientTokenB);
}

#[test]
fn add_insufficient_funds_rejected() {
    let mut pool = pool_with_liquidity(0);
    let r = add_liquidity(&mut pool, id(7), 1000, 500, 0, 0, 999, 500);
    assert_eq!(r.unwrap_err(), ErrorCode::InsufficientFunds);
}

#[test]
fn add_overflowing_mint_rejected() {
    let mut pool = pool_with_liquidity(u128::MAX);
    let r = add_liquidity(&mut pool, id(7), 2, 2, 1, 1, 2, 2);
    assert_eq!(r.unwrap_err(), ErrorCode::Overflow);
    assert_eq!(pool.total_liquidity, u128::MAX);
}

#[test]
fn add_empty_second_reserve_rejected() {
    let mut pool = pool_with_liquidity(5);
    let r = add_liquidity(&mut pool, id(7), 3, 3, 1, 0, 3, 3);
    assert_eq!(r.unwrap_err(), ErrorCode::Overflow);
}

#[test]
fn remove_pays_pro_rata() {
    let mut pool = pool_with_liquidity(1000);
    let outcome = remove_liquidity(&mut pool, 100, 1100, 2200, 100).unwrap();
    assert_eq!(outcome.amount_a, 110);
    assert_eq!(outcome.amount_b, 220);
    assert_eq!(pool.total_liquidity, 900);
}

#[test]
fn remove_zero_rejected() {
    let mut pool = pool_with_liquidity(1000);
    let r = remove_liquidity(&mut pool, 0, 1100, 2200, 100);
    assert_eq!(r.unwrap_err(), ErrorCode::InvalidAmount);
    assert_eq!(pool.total_liquidity, 1000);
}

#[test]
fn remove_from_empty_pool_rejected() {
    let mut pool = pool_with_liquidity(0);
    let r = remove_liquidity(&mut pool, 100, 1100, 2200, 100);
    assert_eq!(r.unwrap_err(), ErrorCode::InsufficientLiquidity);
}

#[test]
fn remove_beyond_lp_balance_rejected() {
    let mut pool = pool_with_liquidity(1000);
    let r = remove_liquidity(&mut pool, 100, 1100, 2200, 50);
    assert_eq!(r.unwrap_err(), ErrorCode::InsufficientLPTokens);
}

#[test]
fn remove_dust_rejected() {
    let mut pool = pool_with_liquidity(1000);
    let r = remove_liquidity(&mut pool, 100, 1, 1, 100);
    assert_eq!(r.unwrap_err(), ErrorCode::InvalidCalculatedAmount);
}

#[test]
fn remove_beyond_first_reserve_rejected() {
    let mut pool = pool_with_liquidity(4);
    let r = remove_liquidity(&mut pool, 5, 4, 4, 5);
    assert_eq!(r.unwrap_err(), ErrorCode::InsufficientPoolTokenA);
}

#[test]
fn remove_beyond_second_reserve_rejected() {
    let mut pool = pool_with_liquidity(4);
    let r = remove_liquidity(&mut pool, 5, 1, 4, 5);
    assert_eq!(r.unwrap_err(), ErrorCode::InsufficientPoolTokenB);
}

#[test]
fn remove_beyond_supply_rejected() {
    let mut pool = pool_with_liquidity(4);
    let r = remove_liquidity(&mut pool, 5, 1, 1, 5);
    assert_eq!(r.unwrap_err(), ErrorCode::Overflow);
    assert_eq!(pool.total_liquidity, 4);
}
