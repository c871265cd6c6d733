use secretswap::decimal::Decimal;
use secretswap::errors::ContractError;
use secretswap::pricing::{
    assert_max_spread, assert_slippage_tolerance, compute_offer_amount, compute_refund,
    compute_share, compute_swap, ReverseQuote, SwapQuote,
};

fn dec(n: u128, d: u128) -> Decimal {
    Decimal::from_ratio(n, d).unwrap()
}

#[test]
fn swap_on_even_pools() {
    // pools of a million each, offering a thousand: 1000 gross, 0.3% commission
    let quote = compute_swap(1_000_000, 1_000_000, 1000).unwrap();
    assert_eq!(
        quote,
        SwapQuote { return_amount: 997, spread_amount: 0, commission_amount: 3 }
    );
}

#[test]
fn swap_product_never_increases_on_scenario() {
    let quote = compute_swap(1_000_000, 1_000_000, 1000).unwrap();
    let pre = quote.return_amount + quote.commission_amount;
    let before: u128 = 1_000_000u128 * 1_000_000u128;
    let after: u128 = (1_000_000u128 + 1000) * (1_000_000u128 - pre);
    assert!(after <= before);
}

#[test]
fn swap_with_deeper_pools() {
    let quote = compute_swap(1_000_000_000, 1_000_000_000, 10_030).unwrap();
    assert_eq!(
        quote,
        SwapQuote { return_amount: 10_000, spread_amount: 0, commission_amount: 30 }
    );
}

#[test]
fn swap_zero_offer_pool_is_an_arithmetic_error() {
    assert_eq!(compute_swap(0, 10, 5), Err(ContractError::ArithmeticError));
}

#[test]
fn swap_overflowing_product_is_an_arithmetic_error() {
    assert_eq!(compute_swap(u128::MAX, 2, 1), Err(ContractError::ArithmeticError));
}

#[test]
fn swap_overflowing_offer_sum_is_an_arithmetic_error() {
    assert_eq!(compute_swap(u128::MAX, 1, 1), Err(ContractError::ArithmeticError));
}

#[test]
fn reverse_quote_even_pools() {
    let quote = compute_offer_amount(1_000_000_000, 1_000_000_000, 10_000).unwrap();
    assert_eq!(
        quote,
        ReverseQuote { offer_amount: 10_030, spread_amount: 0, commission_amount: 30 }
    );
}

#[test]
fn reverse_quote_feeds_back_exactly_on_even_pools() {
    let reverse = compute_offer_amount(1_000_000_000, 1_000_000_000, 10_000).unwrap();
    let forward = compute_swap(1_000_000_000, 1_000_000_000, reverse.offer_amount).unwrap();
    assert_eq!(forward.return_amount, 10_000);
}

#[test]
fn reverse_quote_feeds_back_within_rounding_on_uneven_pools() {
    let reverse = compute_offer_amount(1_000_000, 2_000_000, 5_000).unwrap();
    assert_eq!(reverse.offer_amount, 2_513);
    let forward = compute_swap(1_000_000, 2_000_000, reverse.offer_amount).unwrap();
    assert_eq!(forward.return_amount, 4_999);
    assert!(5_000 - forward.return_amount <= 1);
}

#[test]
fn reverse_quote_feeds_back_within_a_few_units_on_ragged_pools() {
    let reverse = compute_offer_amount(123_456_789, 987_654_321, 1_000_000).unwrap();
    assert_eq!(reverse.offer_amount, 125_503);
    let forward = compute_swap(123_456_789, 987_654_321, reverse.offer_amount).unwrap();
    assert_eq!(forward.return_amount, 999_996);
    assert!(1_000_000 - forward.return_amount <= 4);
}

#[test]
fn reverse_quote_can_fall_well_short_on_shallow_pools() {
    // on a shallow offer pool the coarse offer granularity costs several
    // units, but the round trip still never overshoots the ask
    let reverse = compute_offer_amount(10, 1000, 100).unwrap();
    assert_eq!(reverse.offer_amount, 1);
    let forward = compute_swap(10, 1000, reverse.offer_amount).unwrap();
    assert_eq!(forward.return_amount, 91);
    assert!(forward.return_amount <= 100);
}

#[test]
fn reverse_quote_beyond_pool_depth_is_insufficient_liquidity() {
    // the inflated ask (1003) reaches past the whole ask reserve
    assert_eq!(
        compute_offer_amount(1_000_000, 1000, 1000),
        Err(ContractError::InsufficientLiquidity)
    );
}

#[test]
fn expected_return_shortfall_exceeds_slippage() {
    let r = assert_max_spread(None, None, Some(1000), 1000, 999, 3, 0);
    assert_eq!(r, Err(ContractError::SlippageExceeded));
}

#[test]
fn expected_return_met_passes() {
    assert_eq!(assert_max_spread(None, None, Some(1000), 1000, 1000, 3, 0), Ok(()));
}

#[test]
fn spread_ratio_over_max_spread_exceeds_slippage() {
    // spread 20 of a gross 1000 is 2%, over the 1% bound
    let r = assert_max_spread(None, Some(dec(1, 100)), None, 1000, 978, 2, 20);
    assert_eq!(r, Err(ContractError::SlippageExceeded));
}

#[test]
fn spread_ratio_at_max_spread_passes() {
    let r = assert_max_spread(None, Some(dec(2, 100)), None, 1000, 978, 2, 20);
    assert_eq!(r, Ok(()));
}

#[test]
fn belief_price_shortfall_over_max_spread_exceeds_slippage() {
    // at belief price 1 the offer of 1000 should return 1000; 990 falls 1% short
    let r = assert_max_spread(Some(dec(1, 1)), Some(dec(5, 1000)), None, 1000, 988, 2, 0);
    assert_eq!(r, Err(ContractError::SlippageExceeded));
}

#[test]
fn belief_price_shortfall_within_max_spread_passes() {
    let r = assert_max_spread(Some(dec(1, 1)), Some(dec(2, 100)), None, 1000, 988, 2, 0);
    assert_eq!(r, Ok(()));
}

#[test]
fn no_bounds_accepts_any_price() {
    assert_eq!(assert_max_spread(None, None, None, 1000, 1, 0, 999), Ok(()));
}

#[test]
fn zero_belief_price_is_an_arithmetic_error() {
    let r = assert_max_spread(Some(Decimal::zero()), Some(dec(1, 100)), None, 1000, 988, 2, 0);
    assert_eq!(r, Err(ContractError::ArithmeticError));
}

#[test]
fn balanced_deposit_passes_slippage_tolerance() {
    let r = assert_slippage_tolerance(Some(dec(1, 100)), 100, 100, 1000, 1000);
    assert_eq!(r, Ok(()));
}

#[test]
fn lopsided_deposit_fails_slippage_tolerance() {
    let r = assert_slippage_tolerance(Some(dec(1, 100)), 110, 100, 1000, 1000);
    assert_eq!(r, Err(ContractError::SlippageExceeded));
}

#[test]
fn no_tolerance_given_passes() {
    assert_eq!(assert_slippage_tolerance(None, 110, 100, 1000, 1000), Ok(()));
}

#[test]
fn tolerance_above_one_is_an_arithmetic_error() {
    let r = assert_slippage_tolerance(Some(dec(2, 1)), 100, 100, 1000, 1000);
    assert_eq!(r, Err(ContractError::ArithmeticError));
}

#[test]
fn zero_deposit_in_tolerance_check_is_an_arithmetic_error() {
    let r = assert_slippage_tolerance(Some(dec(1, 100)), 100, 0, 1000, 1000);
    assert_eq!(r, Err(ContractError::ArithmeticError));
}

#[test]
fn first_share_is_the_root_of_the_deposit_product() {
    assert_eq!(compute_share(0, 10_000, 40_000, 0, 0), Ok(20_000));
}

#[test]
fn first_share_rounds_the_root_down() {
    assert_eq!(compute_share(0, 2, 3, 0, 0), Ok(2));
}

#[test]
fn later_share_is_the_minimum_ratio() {
    assert_eq!(compute_share(100, 50, 200, 1000, 4000), Ok(5));
}

#[test]
fn lopsided_deposit_mints_by_the_smaller_ratio() {
    assert_eq!(compute_share(100, 500, 200, 1000, 4000), Ok(5));
}

#[test]
fn share_with_empty_pool_is_an_arithmetic_error() {
    assert_eq!(compute_share(100, 50, 200, 0, 4000), Err(ContractError::ArithmeticError));
}

#[test]
fn refund_is_proportional() {
    assert_eq!(compute_refund(100, 25, 100), Ok(25));
}

#[test]
fn refund_with_no_supply_is_an_arithmetic_error() {
    assert_eq!(compute_refund(100, 25, 0), Err(ContractError::ArithmeticError));
}

#[test]
fn liquidity_round_trip_returns_at_most_the_deposits() {
    // provide (50, 200) against (1000, 4000) at supply 100, then withdraw
    // the minted 5 shares from the grown pool
    let share = compute_share(100, 50, 200, 1000, 4000).unwrap();
    assert_eq!(share, 5);
    let refund_0 = compute_refund(1050, share, 105).unwrap();
    let refund_1 = compute_refund(4200, share, 105).unwrap();
    assert_eq!((refund_0, refund_1), (49, 199));
    assert!(refund_0 <= 50 && refund_1 <= 200);
}

#[test]
fn fresh_liquidity_round_trip_returns_exactly_the_deposits() {
    let share = compute_share(0, 10_000, 40_000, 0, 0).unwrap();
    let refund_0 = compute_refund(10_000, share, share).unwrap();
    let refund_1 = compute_refund(40_000, share, share).unwrap();
    assert_eq!((refund_0, refund_1), (10_000, 40_000));
}
