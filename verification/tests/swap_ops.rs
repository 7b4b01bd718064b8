use babyswap::errors::ErrorCode;
use babyswap::state::AssetId;
use babyswap::state::PoolInfo;
use babyswap::swap::buy;
use babyswap::swap::quote_buy;
use babyswap::swap::quote_sell;
use babyswap::swap::sell;
use babyswap::swap::BuyInstructionData;
use babyswap::swap::SellInstructionData;

fn id(n: u8) -> AssetId {
    AssetId::new([n; 32])
}

fn pool_with_fee(fee: u64) -> PoolInfo {
    PoolInfo {
        pool: id(9),
        mint_a: id(1),
        mint_b: id(2),
        lp_mint: None,
        fees: fee,
        total_liquidity: 0,
    }
}

#[test]
fn slippage_9_rejected() {
    let r = quote_buy(100, 9, 1000, 1000, 0);
    assert_eq!(r.unwrap_err(), ErrorCode::InvalidSlippageValue);
}

#[test]
fn slippage_10001_rejected() {
    let r = quote_buy(100, 10001, 1000, 1000, 0);
    assert_eq!(r.unwrap_err(), ErrorCode::InvalidSlippageValue);
}

#[test]
fn slippage_10_accepted() {
    assert!(quote_buy(100, 10, 1000, 1000, 0).is_ok());
    assert!(quote_sell(100, 10, 1000, 1000, 0).is_ok());
}

#[test]
fn slippage_10000_accepted() {
    assert!(quote_buy(100, 10000, 1000, 1000, 0).is_ok());
    assert!(quote_sell(100, 10000, 1000, 1000, 0).is_ok());
}

#[test]
fn zero_amount_rejected() {
    assert_eq!(quote_buy(0, 100, 1000, 1000, 0).unwrap_err(), ErrorCode::InvalidSwapAmount);
    assert_eq!(quote_sell(0, 100, 1000, 1000, 0).unwrap_err(), ErrorCode::InvalidSwapAmount);
}

#[test]
fn quote_buy_exact_no_fee() {
    // k = 10^8; new input reserve 11000; new output reserve 9090.
    assert_eq!(quote_buy(1000, 100, 10000, 10000, 0).unwrap(), (910, 0));
}

#[test]
fn quote_buy_exact_with_fee() {
    // fee = 10000 * 300 / 10000 = 300, net input 9700;
    // new output reserve = 10^12 / 1009700 = 990393.
    assert_eq!(quote_buy(10000, 100, 1000000, 1000000, 300).unwrap(), (9607, 300));
}

#[test]
fn quote_sell_exact_with_fee() {
    // gross = 10^6 - 10^12 / 1010000 = 9901; fee = 9901 * 300 / 10000 = 297.
    assert_eq!(quote_sell(10000, 100, 1000000, 1000000, 300).unwrap(), (9604, 297));
}

#[test]
fn quote_buy_is_pure() {
    let first = quote_buy(12345, 250, 777777, 888888, 30);
    let second = quote_buy(12345, 250, 777777, 888888, 30);
    assert_eq!(first, second);
}

#[test]
fn quote_sell_is_pure() {
    let first = quote_sell(12345, 250, 777777, 888888, 30);
    let second = quote_sell(12345, 250, 777777, 888888, 30);
    assert_eq!(first, second);
}

#[test]
fn buy_happy_path() {
    let pool = pool_with_fee(300);
    let swap = BuyInstructionData { amount: 10000, slippage: 100, is_buy: true };
    let outcome = buy(&pool, swap, 10000, 1000000, 1000000).unwrap();
    assert_eq!(outcome.amount_in, 10000);
    assert_eq!(outcome.amount_out, 9607);
    assert_eq!(outcome.fee_amount, 300);
}

#[test]
fn buy_insufficient_balance() {
    let pool = pool_with_fee(300);
    let swap = BuyInstructionData { amount: 10000, slippage: 100, is_buy: true };
    let r = buy(&pool, swap, 9999, 1000000, 1000000);
    assert_eq!(r.unwrap_err(), ErrorCode::InsufficientTokenBBalance);
}

#[test]
fn buy_drift_violation() {
    // A degenerate pool of one unit each: the quote drains the output
    // reserve entirely and the product collapses past the tolerance.
    let pool = pool_with_fee(0);
    let swap = BuyInstructionData { amount: 100, slippage: 100, is_buy: true };
    let r = buy(&pool, swap, 100, 1, 1);
    assert_eq!(r.unwrap_err(), ErrorCode::ConstantProductInvariantViolated);
}

#[test]
fn sell_happy_path() {
    let pool = pool_with_fee(300);
    let swap = SellInstructionData { amount: 10000, slippage: 100, is_buy: false };
    let outcome = sell(&pool, swap, 10000, 1000000, 1000000).unwrap();
    assert_eq!(outcome.amount_in, 10000);
    assert_eq!(outcome.amount_out, 9604);
    assert_eq!(outcome.fee_amount, 297);
}

#[test]
fn sell_insufficient_balance() {
    let pool = pool_with_fee(300);
    let swap = SellInstructionData { amount: 10000, slippage: 100, is_buy: false };
    let r = sell(&pool, swap, 9999, 1000000, 1000000);
    assert_eq!(r.unwrap_err(), ErrorCode::InsufficientTokenABalance);
}

#[test]
fn sell_guard_overflow_rejected() {
    // At the extreme edge of the value range the drift check's simulated
    // product no longer fits in 128 bits: the sell is rejected rather
    // than wrapped.
    let pool = pool_with_fee(300);
    let swap = SellInstructionData { amount: u64::MAX, slippage: 100, is_buy: false };
    let r = sell(&pool, swap, u64::MAX, u64::MAX, u64::MAX);
    assert_eq!(r.unwrap_err(), ErrorCode::IntegerOverflow12);
}

#[test]
fn swap_slippage_bounds_through_operations() {
    let pool = pool_with_fee(0);
    let buy_data = BuyInstructionData { amount: 100, slippage: 9, is_buy: true };
    assert_eq!(
        buy(&pool, buy_data, 100, 1000, 1000).unwrap_err(),
        ErrorCode::InvalidSlippageValue
    );
    let sell_data = SellInstructionData { amount: 100, slippage: 10001, is_buy: false };
    assert_eq!(
        sell(&pool, sell_data, 100, 1000, 1000).unwrap_err(),
        ErrorCode::InvalidSlippageValue
    );
}
