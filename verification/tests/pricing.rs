use token_sale::error::ErrorCode;
use token_sale::sale::{
    convert_eurc_price_to_sol, convert_eurc_price_to_usdc, get_current_round, get_mock_price,
    get_stablecoin_price_per_token, get_tier_name, to_base_units, _get_validated_price,
    MOCK_EUR_USD_RATE, MOCK_SOL_USD_RATE, MOCK_USDC_USD_RATE, PYTH_EUR_USD_MAINNET,
    PYTH_SOL_USD_MAINNET,
};
use token_sale::state::{Config, Round, ROUND_DURATION};

const DAY: i64 = 24 * 60 * 60;

fn config_started_at(start: i64) -> Config {
    Config {
        initialized: true,
        owner: [1u8; 32],
        treasury: [2u8; 32],
        mint: [3u8; 32],
        paused: false,
        bump: 255,
        sale_start_time: start,
        round1_tokens_sold: 0,
        round2_tokens_sold: 0,
        round3_tokens_sold: 0,
    }
}

#[test]
fn base_prices_of_the_third_round() {
    assert_eq!(get_stablecoin_price_per_token(1, Round::Third), 290_000);
    assert_eq!(get_stablecoin_price_per_token(999, Round::Third), 290_000);
    assert_eq!(get_stablecoin_price_per_token(1_000, Round::Third), 280_000);
    assert_eq!(get_stablecoin_price_per_token(4_999, Round::Third), 280_000);
    assert_eq!(get_stablecoin_price_per_token(5_000, Round::Third), 270_000);
    assert_eq!(get_stablecoin_price_per_token(9_999, Round::Third), 270_000);
    assert_eq!(get_stablecoin_price_per_token(10_000, Round::Third), 240_000);
    assert_eq!(get_stablecoin_price_per_token(24_999, Round::Third), 240_000);
    assert_eq!(get_stablecoin_price_per_token(25_000, Round::Third), 180_000);
    assert_eq!(get_stablecoin_price_per_token(u64::MAX, Round::Third), 180_000);
}

#[test]
fn discounted_prices_of_the_first_round() {
    assert_eq!(get_stablecoin_price_per_token(500, Round::First), 261_000);
    assert_eq!(get_stablecoin_price_per_token(1_000, Round::First), 252_000);
    assert_eq!(get_stablecoin_price_per_token(5_000, Round::First), 243_000);
    assert_eq!(get_stablecoin_price_per_token(10_000, Round::First), 216_000);
    assert_eq!(get_stablecoin_price_per_token(25_000, Round::First), 162_000);
}

#[test]
fn discounted_prices_of_the_second_round() {
    assert_eq!(get_stablecoin_price_per_token(500, Round::Second), 275_500);
    assert_eq!(get_stablecoin_price_per_token(1_000, Round::Second), 266_000);
    assert_eq!(get_stablecoin_price_per_token(5_000, Round::Second), 256_500);
    assert_eq!(get_stablecoin_price_per_token(10_000, Round::Second), 228_000);
    assert_eq!(get_stablecoin_price_per_token(25_000, Round::Second), 171_000);
}

#[test]
fn discount_matches_the_fractional_multiplier() {
    let amounts = [1u64, 999, 1_000, 4_999, 5_000, 9_999, 10_000, 24_999, 25_000, 1_000_000];
    let rounds = [(Round::First, 0.90f64), (Round::Second, 0.95f64), (Round::Third, 1.00f64)];
    for amount in amounts {
        let base = get_stablecoin_price_per_token(amount, Round::Third);
        for (round, multiplier) in rounds {
            let expected = (base as f64 * multiplier) as u64;
            assert_eq!(get_stablecoin_price_per_token(amount, round), expected);
        }
    }
}

#[test]
fn discount_multiplier_is_in_percent() {
    assert_eq!(Round::First.get_discount_multiplier(), 90);
    assert_eq!(Round::Second.get_discount_multiplier(), 95);
    assert_eq!(Round::Third.get_discount_multiplier(), 100);
}

#[test]
fn round_numbers_count_from_one() {
    assert_eq!(Round::First.number(), 1);
    assert_eq!(Round::Second.number(), 2);
    assert_eq!(Round::Third.number(), 3);
}

#[test]
fn price_never_rises_with_quantity() {
    let amounts = [1u64, 500, 999, 1_000, 4_999, 5_000, 9_999, 10_000, 24_999, 25_000, 900_000];
    for round in [Round::First, Round::Second, Round::Third] {
        for pair in amounts.windows(2) {
            assert!(
                get_stablecoin_price_per_token(pair[1], round)
                    <= get_stablecoin_price_per_token(pair[0], round)
            );
        }
    }
}

#[test]
fn price_never_rises_towards_earlier_rounds() {
    for amount in [1u64, 999, 1_000, 5_000, 10_000, 25_000] {
        let first = get_stablecoin_price_per_token(amount, Round::First);
        let second = get_stablecoin_price_per_token(amount, Round::Second);
        let third = get_stablecoin_price_per_token(amount, Round::Third);
        assert!(first <= second);
        assert!(second <= third);
    }
}

#[test]
fn tier_names_follow_the_breakpoints() {
    assert_eq!(get_tier_name(0), "Tier 1 (<1K)");
    assert_eq!(get_tier_name(999), "Tier 1 (<1K)");
    assert_eq!(get_tier_name(1_000), "Tier 2 (1K-5K)");
    assert_eq!(get_tier_name(4_999), "Tier 2 (1K-5K)");
    assert_eq!(get_tier_name(5_000), "Tier 3 (5K-10K)");
    assert_eq!(get_tier_name(9_999), "Tier 3 (5K-10K)");
    assert_eq!(get_tier_name(10_000), "Tier 4 (10K-25K)");
    assert_eq!(get_tier_name(24_999), "Tier 4 (10K-25K)");
    assert_eq!(get_tier_name(25_000), "Tier 5 (25K+)");
}

#[test]
fn usdc_conversion_scales_by_the_rate() {
    assert_eq!(convert_eurc_price_to_usdc(261_000, 1_080_000), Ok(281_880));
    assert_eq!(convert_eurc_price_to_usdc(290_000, 1_000_000), Ok(290_000));
    assert_eq!(convert_eurc_price_to_usdc(1, 999_999), Ok(0));
    assert_eq!(convert_eurc_price_to_usdc(0, u64::MAX), Ok(0));
    assert_eq!(convert_eurc_price_to_usdc(290_000, 0), Ok(0));
}

#[test]
fn usdc_conversion_reports_overflow() {
    assert_eq!(convert_eurc_price_to_usdc(u64::MAX, 2), Err(ErrorCode::Overflow));
    assert_eq!(convert_eurc_price_to_usdc(1 << 32, 1 << 32), Err(ErrorCode::Overflow));
    assert_eq!(
        convert_eurc_price_to_usdc(u64::MAX, 1),
        Ok(u64::MAX / 1_000_000)
    );
}

#[test]
fn sol_conversion_scales_to_nine_decimals() {
    assert_eq!(convert_eurc_price_to_sol(261_000, 1_080_000, 140_000_000), Ok(2_013_428));
    assert_eq!(convert_eurc_price_to_sol(290_000, 1_080_000, 140_000_000), Ok(2_237_142));
    assert_eq!(convert_eurc_price_to_sol(1_000_000, 1_000_000, 1_000_000), Ok(1_000_000_000));
}

#[test]
fn sol_conversion_reports_overflow_and_zero_rate() {
    assert_eq!(convert_eurc_price_to_sol(u64::MAX, 2, 1), Err(ErrorCode::Overflow));
    assert_eq!(
        convert_eurc_price_to_sol(u64::MAX, 1_000_000, 140_000_000),
        Err(ErrorCode::Overflow)
    );
    assert_eq!(convert_eurc_price_to_sol(261_000, 1_080_000, 0), Err(ErrorCode::Overflow));
    assert_eq!(
        convert_eurc_price_to_sol(20_000_000_000, 1_000_000, 1),
        Err(ErrorCode::Overflow)
    );
}

#[test]
fn mock_prices_go_by_the_account() {
    assert_eq!(get_mock_price(&PYTH_EUR_USD_MAINNET), Ok(1_080_000));
    assert_eq!(get_mock_price(&PYTH_SOL_USD_MAINNET), Ok(140_000_000));
    assert_eq!(get_mock_price(&[0u8; 32]), Ok(1_000_000));
    let mut nearly = PYTH_EUR_USD_MAINNET;
    nearly[31] ^= 1;
    assert_eq!(get_mock_price(&nearly), Ok(MOCK_USDC_USD_RATE));
    assert_eq!(MOCK_EUR_USD_RATE, 1_080_000);
    assert_eq!(MOCK_SOL_USD_RATE, 140_000_000);
}

#[test]
fn validated_price_is_never_available() {
    assert_eq!(_get_validated_price(&PYTH_EUR_USD_MAINNET), Err(ErrorCode::PriceNotAvailable));
    assert_eq!(_get_validated_price(&[9u8; 32]), Err(ErrorCode::PriceNotAvailable));
}

#[test]
fn round_clock_has_three_windows_of_thirty_days() {
    let t0 = 1_700_000_000;
    let config = config_started_at(t0);
    assert_eq!(ROUND_DURATION, 30 * DAY);
    assert_eq!(get_current_round(&config, t0), Ok(Round::First));
    assert_eq!(get_current_round(&config, t0 + 10 * DAY), Ok(Round::First));
    assert_eq!(get_current_round(&config, t0 + 30 * DAY - 1), Ok(Round::First));
    assert_eq!(get_current_round(&config, t0 + 30 * DAY), Ok(Round::Second));
    assert_eq!(get_current_round(&config, t0 + 60 * DAY - 1), Ok(Round::Second));
    assert_eq!(get_current_round(&config, t0 + 60 * DAY), Ok(Round::Third));
    assert_eq!(get_current_round(&config, t0 + 90 * DAY - 1), Ok(Round::Third));
    assert_eq!(get_current_round(&config, t0 + 90 * DAY), Err(ErrorCode::SaleEnded));
    assert_eq!(get_current_round(&config, t0 + 95 * DAY), Err(ErrorCode::SaleEnded));
}

#[test]
fn round_clock_before_the_start_is_the_first_round() {
    let config = config_started_at(1_700_000_000);
    assert_eq!(get_current_round(&config, 0), Ok(Round::First));
    assert_eq!(get_current_round(&config, i64::MIN), Ok(Round::First));
}

#[test]
fn round_clock_does_not_wrap_at_the_ends_of_time() {
    let early = config_started_at(i64::MIN);
    assert_eq!(get_current_round(&early, i64::MAX), Err(ErrorCode::SaleEnded));
    assert_eq!(get_current_round(&early, i64::MIN + 30 * DAY), Ok(Round::Second));
    let late = config_started_at(i64::MAX);
    assert_eq!(get_current_round(&late, i64::MIN), Ok(Round::First));
    assert_eq!(get_current_round(&late, i64::MAX), Ok(Round::First));
}

#[test]
fn base_units_scale_by_the_decimals() {
    assert_eq!(to_base_units(500, 9), Ok(500_000_000_000));
    assert_eq!(to_base_units(7, 0), Ok(7));
    assert_eq!(to_base_units(1, 19), Ok(10_000_000_000_000_000_000));
    assert_eq!(to_base_units(0, 19), Ok(0));
    assert_eq!(to_base_units(18, 18), Ok(18_000_000_000_000_000_000));
}

#[test]
fn base_units_report_overflow() {
    assert_eq!(to_base_units(19, 18), Err(ErrorCode::Overflow));
    assert_eq!(to_base_units(2, 19), Err(ErrorCode::Overflow));
    assert_eq!(to_base_units(1, 20), Err(ErrorCode::Overflow));
    assert_eq!(to_base_units(0, 20), Err(ErrorCode::Overflow));
    assert_eq!(to_base_units(0, 255), Err(ErrorCode::Overflow));
}

#[test]
fn error_messages_name_the_failure() {
    assert_eq!(ErrorCode::NotInitialized.message(), "Not initialized");
    assert_eq!(ErrorCode::Unauthorized.message(), "Unauthorized");
    assert_eq!(ErrorCode::SalePaused.message(), "Sale is paused");
    assert_eq!(ErrorCode::InvalidAmount.message(), "Invalid amount");
    assert_eq!(ErrorCode::Overflow.message(), "Overflow");
    assert_eq!(ErrorCode::SaleEnded.message(), "Sale has ended");
    assert_eq!(ErrorCode::RoundLimitExceeded.message(), "Round limit exceeded");
    assert_eq!(ErrorCode::PriceNotAvailable.message(), "Price not available");
    assert_eq!(ErrorCode::InvalidConfig.message(), "Invalid config account");
}
