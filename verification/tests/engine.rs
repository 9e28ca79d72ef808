use obric_solana::errors::OverflowError;
use obric_solana::math::{checked_pow10, scale_down, sqrt_u128};
use obric_solana::pubkey::Pubkey;
use obric_solana::trading_pair::SSTradingPair;

fn key(tag: u8) -> Pubkey {
    Pubkey::new([tag; 32])
}

fn pool(big_k: u128, mult_x: u64, mult_y: u64, target_x: u64) -> SSTradingPair {
    SSTradingPair {
        is_initialized: true,
        x_price_feed_id: key(1),
        y_price_feed_id: key(2),
        reserve_x: key(3),
        reserve_y: key(4),
        reference_oracle: key(5),
        mint_x: key(6),
        mint_y: key(7),
        big_k,
        target_x,
        mult_x,
        mult_y,
        fee_millionth: 3000,
        rebate_percentage: 50,
        protocol_fee_share_thousandth: 200,
        feed_max_age_x: 30,
        feed_max_age_y: 30,
        price_decimals: 8,
    }
}

fn small_pool() -> SSTradingPair {
    pool(1_000_000_000_000_000_000, 2000, 1, 1_000_000)
}

#[test]
fn canonical_fixture_is_reproducible() {
    let pair = pool(1_000_000_000_000, 2000, 1, 1_000_000);
    let first = pair.quote_x_to_y(1000, 1_000_000, 1_000_000);
    let second = pair.quote_x_to_y(1000, 1_000_000, 1_000_000);
    assert_eq!(first, Ok((0, 0, 0)));
    assert_eq!(first, second);
}

#[test]
fn canonical_fixture_target_and_curve_point() {
    let pair = pool(1_000_000_000_000, 2000, 1, 1_000_000);
    assert_eq!(pair.get_target_xy(1_000_000, 1_000_000), Ok((1_000_000, 1_000_000)));
    assert_eq!(pair.curve_point(1_000_000), Ok((22_360, 44_722_719)));
}

#[test]
fn quote_x_to_y_without_rebate() {
    let pair = small_pool();
    assert_eq!(pair.quote_x_to_y(1000, 1_000_000, 10_000_000), Ok((1_993_911, 1_199, 4_800)));
}

#[test]
fn quote_x_to_y_with_partial_rebate() {
    let pair = small_pool();
    assert_eq!(pair.quote_x_to_y(1000, 999_400, 10_000_000), Ok((1_995_818, 840, 3_360)));
}

#[test]
fn quote_x_to_y_with_full_rebate_share() {
    let pair = small_pool();
    assert_eq!(pair.quote_x_to_y(500, 999_400, 10_000_000), Ok((998_532, 300, 1_200)));
}

#[test]
fn quote_y_to_x_without_rebate() {
    let pair = small_pool();
    assert_eq!(pair.quote_y_to_x(2_000_000, 1_000_000, 10_000_000), Ok((997, 0, 3)));
}

#[test]
fn quote_y_to_x_with_rebate() {
    let pair = small_pool();
    assert_eq!(pair.quote_y_to_x(2_000_000, 1_005_000, 9_000_000), Ok((999, 0, 2)));
}

#[test]
fn quote_y_to_x_on_a_large_pool() {
    let mut pair = pool(
        1_000_000_000_000_000_000_000_000_000_000,
        15_000_000_000,
        100_000_000,
        5_000_000_000_000,
    );
    pair.fee_millionth = 500;
    pair.rebate_percentage = 80;
    pair.protocol_fee_share_thousandth = 300;
    assert_eq!(
        pair.get_target_xy(6_000_000_000_000, 50_000_000_000_000),
        Ok((5_000_000_000_000, 200_000_000_000_000))
    );
    assert_eq!(
        pair.quote_y_to_x(30_000_000_000_000, 6_000_000_000_000, 50_000_000_000_000),
        Ok((204_401_674_732, 6_132_663, 14_309_549))
    );
}

#[test]
fn zero_input_quotes_zero_in_both_directions() {
    let pair = small_pool();
    assert_eq!(pair.quote_x_to_y(0, 1_000_000, 10_000_000), Ok((0, 0, 0)));
    assert_eq!(pair.quote_y_to_x(0, 1_000_000, 10_000_000), Ok((0, 0, 0)));
}

#[test]
fn zero_input_quotes_zero_even_on_a_degenerate_pool() {
    let pair = pool(u128::MAX, 0, 0, u64::MAX);
    assert_eq!(pair.quote_x_to_y(0, u64::MAX, u64::MAX), Ok((0, 0, 0)));
    assert_eq!(pair.quote_y_to_x(0, 0, 0), Ok((0, 0, 0)));
}

#[test]
fn reserve_ceiling_gives_a_zero_quote() {
    let pair = small_pool();
    assert_eq!(pair.quote_x_to_y(1000, 1_000_000, 1_999_909), Ok((0, 0, 0)));
    assert_eq!(pair.quote_x_to_y(1000, 1_000_000, 1_999_910), Ok((0, 0, 0)));
    assert_eq!(pair.quote_x_to_y(1000, 1_000_000, 1_999_911), Ok((1_993_911, 1_199, 4_800)));
}

#[test]
fn reserve_ceiling_gives_a_zero_quote_for_y_to_x() {
    let pair = small_pool();
    assert_eq!(pair.quote_y_to_x(2_000_000, 913, 4_000_000_000), Ok((0, 0, 0)));
    assert_eq!(pair.quote_y_to_x(2_000_000, 914, 4_000_000_000), Ok((911, 0, 2)));
}

#[test]
fn parts_add_up_to_the_raw_output() {
    let pair = small_pool();
    let (output, protocol_fee, lp_fee) = pair.quote_x_to_y(1000, 999_400, 10_000_000).unwrap();
    assert_eq!(output + protocol_fee + lp_fee, 2_000_018);
    let (output, protocol_fee, lp_fee) = pair.quote_x_to_y(1000, 1_000_000, 10_000_000).unwrap();
    assert_eq!(output + protocol_fee + lp_fee, 1_999_910);
}

#[test]
fn fees_add_up_to_the_net_fee() {
    let pair = small_pool();
    assert_eq!(pair.split_fee(2_000_018, 1000, 600), Ok((1_995_818, 840, 3_360)));
    let (output, protocol_fee, lp_fee) = pair.split_fee(2_000_018, 1000, 600).unwrap();
    assert_eq!(protocol_fee + lp_fee, 4_200);
    assert_eq!(output, 2_000_018 - 4_200);
}

#[test]
fn rebate_never_exceeds_the_fee() {
    let mut pair = small_pool();
    pair.rebate_percentage = 100;
    assert_eq!(pair.split_fee(2_000_018, 1000, 5000), Ok((2_000_018, 0, 0)));
}

#[test]
fn split_fee_fails_when_the_rebate_exceeds_the_fee() {
    let mut pair = small_pool();
    pair.rebate_percentage = 101;
    assert_eq!(pair.split_fee(2_000_018, 1000, 5000), Err(OverflowError));
}

#[test]
fn split_fee_fails_when_the_fee_exceeds_the_output() {
    let mut pair = small_pool();
    pair.fee_millionth = 1_000_001;
    assert_eq!(pair.split_fee(2_000_000, 1000, 0), Err(OverflowError));
    pair.fee_millionth = 1_000_000;
    assert_eq!(pair.split_fee(2_000_000, 1000, 0), Ok((0, 400_000, 1_600_000)));
}

#[test]
fn split_fee_fails_when_the_protocol_share_exceeds_the_net_fee() {
    let mut pair = small_pool();
    pair.protocol_fee_share_thousandth = 1001;
    assert_eq!(pair.split_fee(2_000_000, 1000, 0), Err(OverflowError));
}

#[test]
fn split_fee_fails_on_an_input_of_zero() {
    let pair = small_pool();
    assert_eq!(pair.split_fee(2_000_000, 0, 0), Err(OverflowError));
}

#[test]
fn split_fee_is_exact_on_the_largest_output() {
    let pair = small_pool();
    let fee: u64 = 55_340_232_221_128_654;
    let protocol_fee: u64 = 11_068_046_444_225_730;
    assert_eq!(
        pair.split_fee(u64::MAX, 1, 0),
        Ok((u64::MAX - fee, protocol_fee, fee - protocol_fee))
    );
}

#[test]
fn default_pool_is_empty() {
    let pair = SSTradingPair::default();
    assert!(!pair.is_initialized);
    assert_eq!(pair.big_k, 0);
    assert_eq!(pair.mult_x, 0);
    assert_eq!(pair.mint_x, Pubkey::new([0; 32]));
    assert_eq!(Pubkey::default(), Pubkey::new([0; 32]));
    assert!(pair.is_well_formed());
    assert_eq!(pair.quote_x_to_y(1, 1, 1), Err(OverflowError));
}

#[test]
fn well_formedness_is_checked() {
    let mut pair = small_pool();
    assert!(pair.is_well_formed());
    pair.rebate_percentage = 101;
    assert!(!pair.is_well_formed());
    pair.rebate_percentage = 100;
    pair.protocol_fee_share_thousandth = 1001;
    assert!(!pair.is_well_formed());
}

#[test]
fn target_overflow_is_fatal_not_wrapped() {
    let pair = pool(1_000_000_000_000, u64::MAX, 1, 0);
    assert_eq!(pair.get_target_xy(u64::MAX, 0), Err(OverflowError));
    assert_eq!(pair.quote_x_to_y(1, u64::MAX, 0), Err(OverflowError));
    assert_eq!(pair.quote_y_to_x(1, u64::MAX, 0), Err(OverflowError));
}

#[test]
fn target_is_exact_beyond_64_bit_values() {
    let pair = pool(1_000_000_000_000, u64::MAX, u64::MAX, 7);
    assert_eq!(pair.get_target_xy(10, 5), Ok((7, 8)));
}

#[test]
fn target_fails_when_the_total_value_exceeds_128_bits() {
    let pair = pool(1_000_000_000_000, u64::MAX, u64::MAX, 0);
    assert_eq!(pair.get_target_xy(u64::MAX, u64::MAX), Err(OverflowError));
}

#[test]
fn target_fails_when_target_x_is_worth_more_than_the_reserves() {
    let pair = small_pool();
    assert_eq!(pair.get_target_xy(999_999, 1_999), Err(OverflowError));
    assert_eq!(pair.get_target_xy(999_999, 2_000), Ok((1_000_000, 0)));
}

#[test]
fn target_fails_without_a_price_of_y() {
    let pair = pool(1_000_000_000_000, 2000, 0, 1_000_000);
    assert_eq!(pair.get_target_xy(1_000_000, 1_000_000), Err(OverflowError));
}

#[test]
fn curve_point_fails_without_a_price_of_x() {
    let pair = pool(1_000_000_000_000, 0, 1, 0);
    assert_eq!(pair.curve_point(1_000_000), Err(OverflowError));
    assert_eq!(pair.quote_x_to_y(1, 1_000_000, 1_000_000), Err(OverflowError));
}

#[test]
fn curve_point_fails_when_big_k_times_mult_y_overflows() {
    let pair = pool(u128::MAX, 1, 2, 0);
    assert_eq!(pair.curve_point(1), Err(OverflowError));
}

#[test]
fn curve_point_fails_when_the_target_lies_beyond_the_curve() {
    let pair = pool(1_000_000_000_000, 2000, 1, 1_000_000);
    assert_eq!(pair.curve_point(977_640), Err(OverflowError));
    assert_eq!(pair.curve_point(977_639), Err(OverflowError));
    assert_eq!(pair.curve_point(977_641), Ok((1, 1_000_000_000_000)));
}

#[test]
fn quote_y_to_x_fails_when_the_new_y_coordinate_overflows() {
    let pair = pool(u128::MAX, 1, 1, u64::MAX);
    assert_eq!(pair.curve_point(1), Ok((1, u128::MAX)));
    assert_eq!(pair.quote_y_to_x(1, 1, u64::MAX), Err(OverflowError));
}

#[test]
fn update_price_with_equal_decimals() {
    let mut pair = small_pool();
    assert_eq!(pair.update_price(15_000_000_000, 100_000_000, 6, 6), Ok(()));
    assert_eq!(pair.mult_x, 15_000_000_000);
    assert_eq!(pair.mult_y, 100_000_000);
}

#[test]
fn update_price_scales_y_when_x_has_more_decimals() {
    let mut pair = small_pool();
    assert_eq!(pair.update_price(15_000_000_000, 100_000_000, 9, 6), Ok(()));
    assert_eq!(pair.mult_x, 15_000_000_000);
    assert_eq!(pair.mult_y, 100_000_000_000);
}

#[test]
fn update_price_scales_x_when_y_has_more_decimals() {
    let mut pair = small_pool();
    assert_eq!(pair.update_price(15_000_000_000, 100_000_000, 6, 9), Ok(()));
    assert_eq!(pair.mult_x, 15_000_000_000_000);
    assert_eq!(pair.mult_y, 100_000_000);
}

#[test]
fn update_price_changes_nothing_on_overflow() {
    let mut pair = small_pool();
    let before = pair;
    assert_eq!(pair.update_price(7, u64::MAX, 1, 0), Err(OverflowError));
    assert_eq!(pair, before);
    assert_eq!(pair.update_price(u64::MAX, 7, 0, 1), Err(OverflowError));
    assert_eq!(pair, before);
}

#[test]
fn update_price_fails_when_the_decimal_factor_overflows() {
    let mut pair = small_pool();
    let before = pair;
    assert_eq!(pair.update_price(1, 1, 20, 0), Err(OverflowError));
    assert_eq!(pair.update_price(0, 0, 0, 255), Err(OverflowError));
    assert_eq!(pair, before);
    assert_eq!(pair.update_price(1, 1, 19, 0), Ok(()));
    assert_eq!(pair.mult_x, 1);
    assert_eq!(pair.mult_y, 10_000_000_000_000_000_000);
}

#[test]
fn update_price_leaves_the_other_fields() {
    let mut pair = small_pool();
    let before = pair;
    pair.update_price(3, 4, 2, 1).unwrap();
    assert_eq!(pair, SSTradingPair { mult_x: 3, mult_y: 40, ..before });
}

#[test]
fn powers_of_ten() {
    assert_eq!(checked_pow10(0), Some(1));
    assert_eq!(checked_pow10(1), Some(10));
    assert_eq!(checked_pow10(7), Some(10_000_000));
    assert_eq!(checked_pow10(19), Some(10_000_000_000_000_000_000));
    assert_eq!(checked_pow10(20), None);
    assert_eq!(checked_pow10(255), None);
}

#[test]
fn integer_square_roots() {
    assert_eq!(sqrt_u128(0), 0);
    assert_eq!(sqrt_u128(1), 1);
    assert_eq!(sqrt_u128(3), 1);
    assert_eq!(sqrt_u128(4), 2);
    assert_eq!(sqrt_u128(499_999_965_341_040), 22_360_678);
    assert_eq!(sqrt_u128(499_999_965_341_041), 22_360_679);
    assert_eq!(sqrt_u128(500_000_000_000_000), 22_360_679);
    assert_eq!(sqrt_u128(u128::MAX), u64::MAX as u128);
}

#[test]
fn scaling_down_rounds_down() {
    assert_eq!(scale_down(12_345, 0), 12_345);
    assert_eq!(scale_down(12_345, 2), 123);
    assert_eq!(scale_down(12_345, 5), 0);
    assert_eq!(scale_down(99, 2), 0);
    assert_eq!(scale_down(u128::MAX, 38), 3);
    assert_eq!(scale_down(u128::MAX, u32::MAX), 0);
}
