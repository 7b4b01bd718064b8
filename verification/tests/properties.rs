use babyswap::state::AssetId;
use babyswap::state::PoolInfo;
use babyswap::swap::buy;
use babyswap::swap::quote_buy;
use babyswap::swap::quote_sell;
use babyswap::swap::BuyInstructionData;

#[test]
fn rounding_favors_pool() {
    // Whatever a buy pays out, the product of the reserves it leaves
    // behind never exceeds the product it started from.
    let (gross, fee) = quote_buy(1000, 100, 10000, 10000, 0).unwrap();
    assert_eq!(fee, 0);
    assert!(gross < 10000);
    let new_in: u128 = 10000 + 1000;
    let new_out: u128 = 10000 - gross;
    assert!(new_in * new_out <= 10000u128 * 10000u128);
}

#[test]
fn zero_fee_keeps_product_within_rounding() {
    // With no fee the product is preserved up to the floor division:
    // the shortfall stays under one unit of the output asset, that is
    // under one multiple of the updated input reserve.
    let (gross, _fee) = quote_buy(1000, 100, 10000, 10000, 0).unwrap();
    let new_in: u128 = 10000 + 1000;
    let new_out: u128 = 10000 - gross;
    let k: u128 = 10000 * 10000;
    assert!(new_in * new_out <= k);
    assert!(k - new_in * new_out < new_in);
}

#[test]
fn cumulative_drift_stays_bounded() {
    // Fifty fee-free buys in a row, each applied to the reserves the
    // previous one left behind: every step loses at most 0.001% of the
    // product, and the run as a whole stays far above a 0.1% loss.
    let pool = PoolInfo {
        pool: AssetId::new([9; 32]),
        mint_a: AssetId::new([1; 32]),
        mint_b: AssetId::new([2; 32]),
        lp_mint: None,
        fees: 0,
        total_liquidity: 0,
    };
    let mut reserve_a: u64 = 1000000;
    let mut reserve_b: u64 = 1000000;
    let initial_k: u128 = reserve_a as u128 * reserve_b as u128;
    for _ in 0..50 {
        let swap = BuyInstructionData { amount: 1000, slippage: 100, is_buy: true };
        let before_k = reserve_a as u128 * reserve_b as u128;
        let outcome = buy(&pool, swap, 1000, reserve_a, reserve_b).unwrap();
        reserve_a += outcome.amount_in;
        reserve_b -= outcome.amount_out;
        let after_k = reserve_a as u128 * reserve_b as u128;
        assert!(after_k + before_k / 100000 >= before_k);
    }
    assert_eq!((reserve_a, reserve_b), (1050000, 952353));
    let final_k = reserve_a as u128 * reserve_b as u128;
    assert!(final_k >= initial_k - initial_k / 1000);
}

#[test]
fn round_trip_strictly_loses_value() {
    // Sell 10000 of asset A, apply the trade, then spend the full
    // proceeds buying A back: the fee erodes the round trip.
    let sold: u64 = 10000;
    let (proceeds, fee) = quote_sell(sold, 100, 1000000, 1000000, 300).unwrap();
    assert_eq!((proceeds, fee), (9604, 297));
    let reserve_a_after: u64 = 1000000 + sold;
    let reserve_b_after: u64 = 1000000 - proceeds as u64;
    let (returned, _fee2) =
        quote_buy(proceeds as u64, 100, reserve_b_after, reserve_a_after, 300).unwrap();
    assert_eq!(returned, 9412);
    assert!(returned < sold as u128);
}
