use clearing_house::layout::{
    deserialize_market, deserialize_markets, serialize_market, serialize_markets,
    MARKETS_TABLE_SIZE, MARKET_RECORD_SIZE,
};
use clearing_house::market::{Market, Markets, OracleSource, AMM};

fn sample_market() -> Market {
    Market {
        base_asset_amount_long: 123_456_789,
        base_asset_amount_short: -23_456_789,
        base_asset_amount: 100_000_000,
        open_interest: 42,
        amm: AMM {
            base_asset_reserve: 1_000_000_000_000,
            quote_asset_reserve: 987_654_321_000,
            sqrt_k: 993_807_989_999,
            cumulative_repeg_rebate_long: 7,
            cumulative_repeg_rebate_short: 11,
            cumulative_funding_rate_long: 1_001,
            cumulative_funding_rate_short: 999,
            last_funding_rate: -417,
            last_funding_rate_ts: 1_650_000_000,
            funding_period: 3600,
            peg_multiplier: 3,
            total_fee: 500_000,
            total_fee_minus_distributions: 400_000,
            total_fee_withdrawn: 100_000,
            minimum_base_asset_trade_size: 10_000_000,
            minimum_quote_asset_trade_size: 10_000_000,
            last_mark_price_twap: 2_955_000,
            last_mark_price_twap_ts: 1_650_000_060,
            last_oracle_price_twap_ts: 1_650_000_030,
            last_oracle_price_twap: 2_960_000,
            oracle: 77,
            last_oracle_price: 2_961_500,
            base_spread: 25,
            oracle_source: OracleSource::SwitchBoard,
        },
        margin_ratio_initial: 2000,
        margin_ratio_partial: 625,
        margin_ratio_maintenance: 500,
        initialized: true,
    }
}

#[test]
fn market_record_round_trips_at_fixed_size() {
    let market = sample_market();
    let mut bytes: Vec<u8> = Vec::new();
    serialize_market(&mut bytes, &market);
    assert_eq!(bytes.len(), MARKET_RECORD_SIZE);
    let back = deserialize_market(&bytes);
    assert_eq!(back, market);
}

#[test]
fn negative_and_extreme_fields_round_trip() {
    let mut market = sample_market();
    market.base_asset_amount_short = i128::MIN;
    market.base_asset_amount_long = i128::MAX;
    market.amm.last_funding_rate = -1;
    market.amm.last_oracle_price = i128::MIN + 1;
    market.amm.funding_period = i64::MAX;
    market.open_interest = u128::MAX;
    let mut bytes: Vec<u8> = Vec::new();
    serialize_market(&mut bytes, &market);
    let back = deserialize_market(&bytes);
    assert_eq!(back, market);
}

#[test]
fn markets_table_round_trips_at_its_constant_size() {
    let mut table = Markets::new();
    table.markets[0] = sample_market();
    table.markets[63] = sample_market();
    table.markets[63].amm.oracle = 99;
    let bytes = serialize_markets(&table);
    assert_eq!(bytes.len(), MARKETS_TABLE_SIZE);
    assert_eq!(bytes.len(), 64 * MARKET_RECORD_SIZE);
    let back = deserialize_markets(&bytes);
    assert_eq!(back, table);
}
