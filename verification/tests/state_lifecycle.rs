use clearing_house::errors::Errors;
use clearing_house::market::Markets;
use clearing_house::state::{initialize, initialize_order_state, intialize_history};

#[test]
fn initialize_checks_vault_authorities_in_order() {
    // Collateral authority mismatch is caught first.
    assert_eq!(
        initialize(1, 2, 3, 40, 41, 0, 5, 6, 6, 0, 8, false),
        Err(Errors::InvalidCollateralVaultAuthority)
    );
    assert_eq!(
        initialize(1, 2, 3, 4, 4, 0, 5, 60, 61, 0, 8, false),
        Err(Errors::InvalidInsuranceVaultAuthority)
    );
}

#[test]
fn initialize_sets_documented_defaults() {
    let state = initialize(1, 2, 3, 4, 4, 9, 5, 6, 6, 11, 8, true).unwrap();
    assert_eq!(state.admin, 1);
    assert!(state.admin_controls_prices);
    assert_eq!(state.collateral_vault_authority_nonce, 9);
    assert_eq!(state.insurance_vault_authority_nonce, 11);
    assert_eq!(state.margin_ratio_initial, 2000);
    assert_eq!(state.margin_ratio_partial, 625);
    assert_eq!(state.margin_ratio_maintenance, 500);
    assert_eq!(state.partial_liquidation_close_percentage_numerator, 25);
    assert_eq!(state.partial_liquidation_close_percentage_denominator, 100);
    assert_eq!(state.partial_liquidation_penalty_percentage_numerator, 25);
    assert_eq!(state.partial_liquidation_penalty_percentage_denominator, 1000);
    assert_eq!(state.full_liquidation_penalty_percentage_numerator, 1);
    assert_eq!(state.full_liquidation_penalty_percentage_denominator, 1);
    assert_eq!(state.partial_liquidation_liquidator_share_denominator, 2);
    assert_eq!(state.full_liquidation_liquidator_share_denominator, 20);
    assert_eq!(state.fee_structure.fee_numerator, 10);
    assert_eq!(state.fee_structure.fee_denominator, 10_000);
    assert!(state.oracle_guard_rails.use_for_liquidations);
    assert_eq!(state.trade_history, None);
    assert_eq!(state.deposit_history, None);
    assert_eq!(state.funding_payment_history, None);
    assert_eq!(state.funding_rate_history, None);
    assert_eq!(state.liquidation_history, None);
    assert_eq!(state.curve_history, None);
    assert_eq!(state.order_state, None);
}

#[test]
fn history_initialization_is_one_time() {
    let mut state = initialize(1, 2, 3, 4, 4, 0, 5, 6, 6, 0, 8, false).unwrap();
    intialize_history(&mut state, 11, 12, 13, 14, 15, 16).unwrap();
    assert_eq!(state.trade_history, Some(11));
    assert_eq!(state.deposit_history, Some(12));
    assert_eq!(state.liquidation_history, Some(13));
    assert_eq!(state.funding_rate_history, Some(14));
    assert_eq!(state.funding_payment_history, Some(15));
    assert_eq!(state.curve_history, Some(16));
    // A second attempt fails with the domain error and leaves every
    // reference exactly as it was.
    let snapshot = state;
    assert_eq!(
        intialize_history(&mut state, 21, 22, 23, 24, 25, 26),
        Err(Errors::HistoriesAllInitialized)
    );
    assert_eq!(state, snapshot);
}

#[test]
fn history_initialization_rejects_a_partially_set_state() {
    let mut state = initialize(1, 2, 3, 4, 4, 0, 5, 6, 6, 0, 8, false).unwrap();
    // Each reference is one-time: a single reference already set is
    // enough to reject the call, and the set reference keeps its
    // value.
    state.trade_history = Some(99);
    let snapshot = state;
    assert_eq!(
        intialize_history(&mut state, 11, 12, 13, 14, 15, 16),
        Err(Errors::HistoriesAllInitialized)
    );
    assert_eq!(state, snapshot);
    assert_eq!(state.trade_history, Some(99));
    assert_eq!(state.curve_history, None);
}

#[test]
fn order_state_initialization_is_one_time() {
    let mut state = initialize(1, 2, 3, 4, 4, 0, 5, 6, 6, 0, 8, false).unwrap();
    let order_state = initialize_order_state(&mut state, 31, 32).unwrap();
    assert_eq!(state.order_state, Some(31));
    assert_eq!(order_state.order_history, 32);
    assert_eq!(order_state.order_filler_reward_structure.reward_numerator, 1);
    assert_eq!(order_state.order_filler_reward_structure.reward_denominator, 10);
    assert_eq!(
        order_state.order_filler_reward_structure.time_based_reward_lower_bound,
        10_000
    );
    assert_eq!(order_state.min_order_quote_asset_amount, 500_000);
    let snapshot = state;
    assert_eq!(
        initialize_order_state(&mut state, 41, 42),
        Err(Errors::OrderStateAlreadyInitialized)
    );
    assert_eq!(state, snapshot);
}

#[test]
fn markets_table_has_fixed_capacity_of_zeroed_slots() {
    let markets = Markets::new();
    assert_eq!(markets.markets.len(), 64);
    for market in &markets.markets {
        assert!(!market.initialized);
        assert_eq!(market.base_asset_amount, 0);
        assert_eq!(market.open_interest, 0);
        assert_eq!(market.amm.base_asset_reserve, 0);
    }
    let slot = markets.market_at(63);
    assert!(!slot.initialized);
}
