use clearing_house::errors::Errors;
use clearing_house::fees::compute_fee;
use clearing_house::funding::settle_funding;
use clearing_house::liquidation::evaluate;
use clearing_house::margin::{
    base_asset_value, classify, margin_ratio, meets_initial_margin, unrealized_pnl,
    LiquidationStatus, MarketPosition,
};
use clearing_house::market::{Market, OracleSource, PositionDirection, AMM};
use clearing_house::oracle::{validate, OracleReading, OracleStatus};
use clearing_house::state::{default_fee_structure, default_oracle_guard_rails, initialize};

fn base_amm() -> AMM {
    AMM {
        base_asset_reserve: 1_000_000,
        quote_asset_reserve: 1_000_000,
        sqrt_k: 1_000_000,
        cumulative_repeg_rebate_long: 0,
        cumulative_repeg_rebate_short: 0,
        cumulative_funding_rate_long: 0,
        cumulative_funding_rate_short: 0,
        last_funding_rate: 0,
        last_funding_rate_ts: 0,
        funding_period: 3600,
        peg_multiplier: 1,
        total_fee: 0,
        total_fee_minus_distributions: 0,
        total_fee_withdrawn: 0,
        minimum_base_asset_trade_size: 1,
        minimum_quote_asset_trade_size: 1,
        last_mark_price_twap: 1_000_000,
        last_mark_price_twap_ts: 0,
        last_oracle_price_twap_ts: 0,
        last_oracle_price_twap: 1_000_000,
        oracle: 7,
        last_oracle_price: 1_000_000,
        base_spread: 0,
        oracle_source: OracleSource::Pyth,
    }
}

fn base_market() -> Market {
    Market {
        base_asset_amount_long: 0,
        base_asset_amount_short: 0,
        base_asset_amount: 0,
        open_interest: 0,
        amm: base_amm(),
        margin_ratio_initial: 2000,
        margin_ratio_partial: 625,
        margin_ratio_maintenance: 500,
        initialized: true,
    }
}

fn default_state() -> clearing_house::state::State {
    initialize(1, 2, 3, 4, 4, 0, 5, 6, 6, 0, 8, false).unwrap()
}

#[test]
fn mark_price_of_balanced_pool_is_one() {
    let amm = base_amm();
    // reserves 1_000_000 / 1_000_000 with peg 1: the mark price is 1.0,
    // i.e. exactly the price scale.
    assert_eq!(amm.get_mark_price().unwrap(), 1_000_000);
}

#[test]
fn mark_price_scales_with_peg() {
    let mut amm = base_amm();
    amm.peg_multiplier = 3;
    assert_eq!(amm.get_mark_price().unwrap(), 3_000_000);
}

#[test]
fn swap_preserves_reserve_product_within_rounding() {
    let mut amm = base_amm();
    let product_before = amm.base_asset_reserve * amm.quote_asset_reserve;
    let quote_delta = amm.quote_swap(10_000, PositionDirection::Long).unwrap();
    assert_eq!(amm.base_asset_reserve, 990_000);
    assert_eq!(amm.quote_asset_reserve, 1_010_101);
    assert_eq!(quote_delta, 10_101);
    let product_after = amm.base_asset_reserve * amm.quote_asset_reserve;
    // The product never grows and shrinks by less than the new base
    // reserve (the rounding error bound of one division).
    assert!(product_after <= product_before);
    assert!(product_before - product_after < amm.base_asset_reserve);
}

#[test]
fn short_swap_preserves_reserve_product_within_rounding() {
    let mut amm = base_amm();
    let product_before = amm.base_asset_reserve * amm.quote_asset_reserve;
    let quote_delta = amm.quote_swap(10_000, PositionDirection::Short).unwrap();
    assert_eq!(amm.base_asset_reserve, 1_010_000);
    assert_eq!(amm.quote_asset_reserve, 990_099);
    assert_eq!(quote_delta, 9_901);
    let product_after = amm.base_asset_reserve * amm.quote_asset_reserve;
    assert!(product_after <= product_before);
    assert!(product_before - product_after < amm.base_asset_reserve);
}

#[test]
fn swap_that_drains_base_reserve_is_rejected() {
    let mut amm = base_amm();
    let before = amm;
    let r = amm.quote_swap(1_000_000, PositionDirection::Long);
    assert_eq!(r, Err(Errors::MathError));
    assert_eq!(amm, before);
}

#[test]
fn apply_trade_keeps_exposure_identity() {
    let mut market = base_market();
    let quote_delta = market.apply_trade(PositionDirection::Long, 10_000).unwrap();
    assert_eq!(quote_delta, 10_101);
    assert_eq!(market.base_asset_amount_long, 10_000);
    assert_eq!(market.base_asset_amount_short, 0);
    assert_eq!(
        market.base_asset_amount,
        market.base_asset_amount_long + market.base_asset_amount_short
    );
    let _ = market.apply_trade(PositionDirection::Short, 4_000).unwrap();
    assert_eq!(market.base_asset_amount_long, 10_000);
    assert_eq!(market.base_asset_amount_short, -4_000);
    assert_eq!(
        market.base_asset_amount,
        market.base_asset_amount_long + market.base_asset_amount_short
    );
}

#[test]
fn mark_twap_blends_by_elapsed_time() {
    let mut amm = base_amm();
    // 60 of 3600 seconds elapsed: (1_090_000 * 60 + 1_000_000 * 3540)
    // / 3600 == 1_001_500.
    let twap = amm.update_mark_price_twap(1_090_000, 60).unwrap();
    assert_eq!(twap, 1_001_500);
    assert_eq!(amm.last_mark_price_twap, 1_001_500);
    assert_eq!(amm.last_mark_price_twap_ts, 60);
}

#[test]
fn stale_twap_sample_cannot_dominate_beyond_the_lookback() {
    let mut amm = base_amm();
    // Two full periods elapsed: the old average keeps the minimal
    // weight of one unit, so the sample takes over almost entirely:
    // (2_000_000 * 7200 + 1_000_000) / 7201 == 1_999_861.
    let twap = amm.update_mark_price_twap(2_000_000, 7200).unwrap();
    assert_eq!(twap, 1_999_861);
}

#[test]
fn fixed_point_division_rounds_magnitude_down() {
    assert_eq!(clearing_house::math::mul_div_u128(7, 3, 2).unwrap(), 10);
    assert_eq!(clearing_house::math::div_to_zero_i128(-21, 2), -10);
    assert_eq!(clearing_house::math::div_to_zero_i128(21, 2), 10);
    assert_eq!(
        clearing_house::math::mul_u128(u128::MAX, 2),
        Err(Errors::MathError)
    );
}

#[test]
fn oracle_twap_blends_and_records_last_price() {
    let mut amm = base_amm();
    let twap = amm.update_oracle_price_twap(1_090_000, 60).unwrap();
    assert_eq!(twap, 1_001_500);
    assert_eq!(amm.last_oracle_price_twap, 1_001_500);
    assert_eq!(amm.last_oracle_price_twap_ts, 60);
    assert_eq!(amm.last_oracle_price, 1_090_000);
}

#[test]
fn funding_settles_the_twap_spread_over_the_normalizer() {
    let mut amm = base_amm();
    amm.last_oracle_price_twap = 900_000;
    // A full period has passed; the oracle TWAP blend keeps 900_000
    // ((900_000 * 3600 + 900_000) / 3601), the spread is 100_000 and
    // the rate 100_000 / 24 == 4166 rounded down.
    let rate = settle_funding(&mut amm, 900_000, 3600).unwrap();
    assert_eq!(rate, 4166);
    assert_eq!(amm.last_funding_rate, 4166);
    assert_eq!(amm.last_funding_rate_ts, 3600);
    assert_eq!(amm.cumulative_funding_rate_long, 4166);
    assert_eq!(amm.cumulative_funding_rate_short, 4166);
    assert_eq!(amm.last_oracle_price_twap, 900_000);
}

#[test]
fn funding_settlement_is_idempotent_within_a_period() {
    let mut amm = base_amm();
    amm.last_oracle_price_twap = 900_000;
    let first = settle_funding(&mut amm, 900_000, 3600).unwrap();
    assert_ne!(first, 0);
    let after_first = amm;
    // The second call with the same timestamp is a no-op reporting a
    // zero delta, not an error.
    let second = settle_funding(&mut amm, 900_000, 3600).unwrap();
    assert_eq!(second, 0);
    assert_eq!(amm, after_first);
}

#[test]
fn funding_within_period_is_a_no_op() {
    let mut amm = base_amm();
    let before = amm;
    let rate = settle_funding(&mut amm, 900_000, 3599).unwrap();
    assert_eq!(rate, 0);
    assert_eq!(amm, before);
}

#[test]
fn base_asset_value_uses_the_mark_price() {
    let amm = base_amm();
    let position = MarketPosition { base_asset_amount: 1000, quote_asset_amount: 1000 };
    assert_eq!(base_asset_value(&position, &amm).unwrap(), 1000);
    let short = MarketPosition { base_asset_amount: -1000, quote_asset_amount: 1000 };
    assert_eq!(base_asset_value(&short, &amm).unwrap(), 1000);
}

#[test]
fn unrealized_pnl_is_signed_by_direction() {
    let mut amm = base_amm();
    // Price rises to 1.5: longs gain, shorts lose.
    amm.quote_asset_reserve = 1_500_000;
    amm.base_asset_reserve = 1_000_000;
    let long = MarketPosition { base_asset_amount: 1000, quote_asset_amount: 1000 };
    assert_eq!(unrealized_pnl(&long, &amm).unwrap(), 500);
    let short = MarketPosition { base_asset_amount: -1000, quote_asset_amount: 1000 };
    assert_eq!(unrealized_pnl(&short, &amm).unwrap(), -500);
}

#[test]
fn margin_ratio_is_collateral_over_notional_in_basis_points() {
    let amm = base_amm();
    let position = MarketPosition { base_asset_amount: 1000, quote_asset_amount: 1000 };
    // Zero unrealized PnL: ratio = 55 * 10_000 / 1000 == 550.
    assert_eq!(margin_ratio(&position, &amm, 55).unwrap(), 550);
    // Underwater position: total collateral -500, ratio -5000.
    let entry_high = MarketPosition { base_asset_amount: 1000, quote_asset_amount: 2000 };
    assert_eq!(margin_ratio(&entry_high, &amm, 500).unwrap(), -5000);
}

#[test]
fn empty_position_has_maximal_margin_ratio() {
    let amm = base_amm();
    let position = MarketPosition { base_asset_amount: 0, quote_asset_amount: 0 };
    assert_eq!(margin_ratio(&position, &amm, 0).unwrap(), i128::MAX);
}

#[test]
fn margin_threshold_boundaries() {
    // Thresholds follow the ordering invariant initial > partial >
    // maintenance (2000 > 625 > 500 basis points); an inverted pair
    // with partial below maintenance is ruled out by that invariant,
    // so a ratio of 600 sits in the partial band here.  A ratio
    // exactly at a threshold belongs to the safer band.
    let market = base_market();
    assert_eq!(classify(600, &market), LiquidationStatus::PartialLiquidatable);
    assert_eq!(classify(625, &market), LiquidationStatus::Healthy);
    assert_eq!(classify(624, &market), LiquidationStatus::PartialLiquidatable);
    assert_eq!(classify(500, &market), LiquidationStatus::PartialLiquidatable);
    assert_eq!(classify(499, &market), LiquidationStatus::FullyLiquidatable);
    assert_eq!(classify(-1, &market), LiquidationStatus::FullyLiquidatable);
    assert!(meets_initial_margin(2000, &market));
    assert!(!meets_initial_margin(1999, &market));
}

#[test]
fn classification_never_softens_as_collateral_falls() {
    let market = base_market();
    let position = MarketPosition { base_asset_amount: 1000, quote_asset_amount: 1000 };
    let collaterals = [200u128, 100, 62, 55, 49, 10, 0];
    let mut worst = 0u8;
    for c in collaterals {
        let ratio = margin_ratio(&position, &market.amm, c).unwrap();
        let severity = match classify(ratio, &market) {
            LiquidationStatus::Healthy => 0u8,
            LiquidationStatus::PartialLiquidatable => 1,
            LiquidationStatus::FullyLiquidatable => 2,
        };
        assert!(severity >= worst);
        worst = severity;
    }
    assert_eq!(worst, 2);
}

#[test]
fn fee_without_discounts_is_the_base_ratio() {
    let fs = default_fee_structure();
    let breakdown = compute_fee(&fs, 1_000_000, 0, false).unwrap();
    assert_eq!(breakdown.fee, 1000);
    assert_eq!(breakdown.token_discount, 0);
    assert_eq!(breakdown.referral_discount, 0);
    assert_eq!(breakdown.referrer_reward, 0);
}

#[test]
fn fee_discounts_compose_multiplicatively_and_stay_bounded() {
    let fs = default_fee_structure();
    // First tier (20%) then referral (5%): 1000 -> 800 -> 760, with
    // the referrer rewarded 5% of the final fee.
    let breakdown = compute_fee(&fs, 1_000_000, 1_000_000_000_000, true).unwrap();
    assert_eq!(breakdown.token_discount, 200);
    assert_eq!(breakdown.referral_discount, 40);
    assert_eq!(breakdown.fee, 760);
    assert_eq!(breakdown.referrer_reward, 38);
    // Never negative and never above the base fee, and the parts
    // account exactly for the base fee.
    assert!(breakdown.fee <= 1000);
    assert_eq!(breakdown.fee + breakdown.token_discount + breakdown.referral_discount, 1000);
}

#[test]
fn fee_selects_the_highest_qualifying_tier() {
    let fs = default_fee_structure();
    // Fourth tier only (5%).
    let fourth = compute_fee(&fs, 1_000_000, 1_000_000_000, false).unwrap();
    assert_eq!(fourth.fee, 950);
    // Just below the fourth tier: no discount.
    let none = compute_fee(&fs, 1_000_000, 999_999_999, false).unwrap();
    assert_eq!(none.fee, 1000);
}

#[test]
fn fee_overflow_fails_loudly() {
    let fs = default_fee_structure();
    assert_eq!(compute_fee(&fs, u128::MAX, 0, false), Err(Errors::MathError));
}

#[test]
fn oracle_rejects_stale_readings() {
    let rails = default_oracle_guard_rails();
    let reading = OracleReading { price: 1_000_000, confidence: 0, slot: 0 };
    assert_eq!(
        validate(&reading, 1001, 1_000_000, 1_000_000, &rails).unwrap(),
        OracleStatus::Stale
    );
    assert_eq!(
        validate(&reading, 1000, 1_000_000, 1_000_000, &rails).unwrap(),
        OracleStatus::Valid
    );
}

#[test]
fn oracle_rejects_wide_confidence_and_price_jumps() {
    let rails = default_oracle_guard_rails();
    let wide = OracleReading { price: 1_000_000, confidence: 5, slot: 0 };
    assert_eq!(
        validate(&wide, 0, 1_000_000, 1_000_000, &rails).unwrap(),
        OracleStatus::TooVolatile
    );
    // A sixfold jump exceeds the fivefold volatility limit.
    let jump = OracleReading { price: 6_000_000, confidence: 0, slot: 0 };
    assert_eq!(
        validate(&jump, 0, 1_000_000, 1_000_000, &rails).unwrap(),
        OracleStatus::TooVolatile
    );
    // A non-positive price can never form a ratio.
    let junk = OracleReading { price: 0, confidence: 0, slot: 0 };
    assert_eq!(
        validate(&junk, 0, 1_000_000, 1_000_000, &rails).unwrap(),
        OracleStatus::TooVolatile
    );
}

#[test]
fn oracle_rejects_divergence_from_mark_price() {
    let rails = default_oracle_guard_rails();
    let reading = OracleReading { price: 1_000_000, confidence: 0, slot: 0 };
    // Limit is a tenth of the oracle price: a mark of 1_100_000 is
    // on the boundary and passes; 1_100_001 diverges.
    assert_eq!(
        validate(&reading, 0, 1_000_000, 1_100_000, &rails).unwrap(),
        OracleStatus::Valid
    );
    assert_eq!(
        validate(&reading, 0, 1_000_000, 1_100_001, &rails).unwrap(),
        OracleStatus::Diverged
    );
}

#[test]
fn healthy_position_cannot_be_liquidated() {
    let state = default_state();
    let market = base_market();
    let position = MarketPosition { base_asset_amount: 1000, quote_asset_amount: 1000 };
    let reading = OracleReading { price: 1_000_000, confidence: 0, slot: 0 };
    // Collateral 200 puts the ratio at 2000: healthy, a domain
    // violation to liquidate.
    let r = evaluate(&position, &market, 200, &state, &reading, 0);
    assert_eq!(r, Err(Errors::SufficientCollateral));
}

#[test]
fn partial_liquidation_quarters_the_position_at_the_partial_penalty() {
    let state = default_state();
    let market = base_market();
    let position = MarketPosition { base_asset_amount: 1000, quote_asset_amount: 1000 };
    let reading = OracleReading { price: 1_000_000, confidence: 0, slot: 0 };
    // Ratio 550 sits in the partial band.  A quarter of the 1000-unit
    // notional closes; the penalty is 250 * 25 / 1000 == 6 (6.25
    // rounded down) and the liquidator receives half of it.
    let outcome = evaluate(&position, &market, 55, &state, &reading, 0).unwrap();
    assert_eq!(outcome.status, LiquidationStatus::PartialLiquidatable);
    assert_eq!(outcome.base_asset_value, 1000);
    assert_eq!(outcome.closed_notional, 250);
    assert_eq!(outcome.penalty, 6);
    assert_eq!(outcome.liquidator_share, 3);
    assert_eq!(outcome.insurance_share, 3);
}

#[test]
fn full_liquidation_closes_everything() {
    let state = default_state();
    let market = base_market();
    let position = MarketPosition { base_asset_amount: 1000, quote_asset_amount: 1000 };
    let reading = OracleReading { price: 1_000_000, confidence: 0, slot: 0 };
    // Ratio 40 is below maintenance: everything closes at the full
    // penalty of 1/1, the liquidator taking a twentieth.
    let outcome = evaluate(&position, &market, 4, &state, &reading, 0).unwrap();
    assert_eq!(outcome.status, LiquidationStatus::FullyLiquidatable);
    assert_eq!(outcome.closed_notional, 1000);
    assert_eq!(outcome.penalty, 1000);
    assert_eq!(outcome.liquidator_share, 50);
    assert_eq!(outcome.insurance_share, 950);
}

#[test]
fn oracle_gate_blocks_liquidation_regardless_of_margin() {
    let state = default_state();
    let market = base_market();
    let position = MarketPosition { base_asset_amount: 1000, quote_asset_amount: 1000 };
    // Deep underwater, but the reading is stale and guard rails
    // apply to liquidations.
    let stale = OracleReading { price: 1_000_000, confidence: 0, slot: 0 };
    assert_eq!(
        evaluate(&position, &market, 0, &state, &stale, 2000),
        Err(Errors::OracleStale)
    );
    // Without guard rails the same attempt proceeds on the mark price.
    let mut ungated = state;
    ungated.oracle_guard_rails.use_for_liquidations = false;
    let outcome = evaluate(&position, &market, 0, &ungated, &stale, 2000).unwrap();
    assert_eq!(outcome.status, LiquidationStatus::FullyLiquidatable);
}
