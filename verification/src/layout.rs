//! Persisted layout of the fixed-size records.
//!
//! Market records are stored as plain fixed-size structs; this module
//! gives them an explicit serialized form — every field in
//! declaration order, integers little-endian, signed integers in
//! two's complement — whose byte size is a compile-time constant the
//! collaborator can rely on for storage allocation.  Deserializing
//! what was serialized returns the original record exactly.

use vstd::bytes::{
    spec_u128_from_le_bytes, spec_u128_to_le_bytes, spec_u16_from_le_bytes, spec_u16_to_le_bytes,
    spec_u32_from_le_bytes, spec_u32_to_le_bytes, spec_u64_from_le_bytes, spec_u64_to_le_bytes,
    u128_from_le_bytes, u128_to_le_bytes, u16_from_le_bytes, u16_to_le_bytes, u32_from_le_bytes,
    u32_to_le_bytes, u64_from_le_bytes, u64_to_le_bytes,
};
use vstd::prelude::*;
use vstd::slice::slice_subrange;

use crate::market::{Market, Markets, OracleSource, AMM, MARKET_CAPACITY};

verus! {

/// Two's-complement image of a signed quantity.
pub open spec fn spec_i128_to_u128(x: i128) -> u128 {
    if x >= 0 {
        x as u128
    } else {
        (x + 0x1_0000_0000_0000_0000_0000_0000_0000_0000) as u128
    }
}

/// Signed value of a two's-complement image.
pub open spec fn spec_u128_to_i128(u: u128) -> i128 {
    if u <= i128::MAX {
        u as i128
    } else {
        (u - 0x1_0000_0000_0000_0000_0000_0000_0000_0000) as i128
    }
}

/// Two's-complement image of a signed quantity.
pub open spec fn spec_i64_to_u64(x: i64) -> u64 {
    if x >= 0 {
        x as u64
    } else {
        (x + 0x1_0000_0000_0000_0000) as u64
    }
}

/// Signed value of a two's-complement image.
pub open spec fn spec_u64_to_i64(u: u64) -> i64 {
    if u <= i64::MAX {
        u as i64
    } else {
        (u - 0x1_0000_0000_0000_0000) as i64
    }
}

/// The byte a flag serializes to.
pub open spec fn spec_bool_byte(b: bool) -> u8 {
    if b {
        1u8
    } else {
        0u8
    }
}

/// The byte an oracle-source tag serializes to.
pub open spec fn spec_oracle_source_byte(source: OracleSource) -> u8 {
    match source {
        OracleSource::Pyth => 0u8,
        OracleSource::SwitchBoard => 1u8,
    }
}

/// The oracle-source tag a byte deserializes to.
pub open spec fn spec_byte_oracle_source(b: u8) -> OracleSource {
    if b == 1 {
        OracleSource::SwitchBoard
    } else {
        OracleSource::Pyth
    }
}

fn i128_to_u128(x: i128) -> (r: u128)
    ensures
        r == spec_i128_to_u128(x),
{
    if x >= 0 {
        x as u128
    } else {
        u128::MAX - ((-(x + 1)) as u128)
    }
}

fn u128_to_i128(u: u128) -> (r: i128)
    ensures
        r == spec_u128_to_i128(u),
{
    if u <= (i128::MAX as u128) {
        u as i128
    } else {
        let m = u128::MAX - u;
        -(m as i128) - 1
    }
}

fn i64_to_u64(x: i64) -> (r: u64)
    ensures
        r == spec_i64_to_u64(x),
{
    if x >= 0 {
        x as u64
    } else {
        u64::MAX - ((-(x + 1)) as u64)
    }
}

fn u64_to_i64(u: u64) -> (r: i64)
    ensures
        r == spec_u64_to_i64(u),
{
    if u <= (i64::MAX as u64) {
        u as i64
    } else {
        let m = u64::MAX - u;
        -(m as i64) - 1
    }
}

fn put_u128(out: &mut Vec<u8>, x: u128)
    ensures
        final(out)@ == old(out)@ + spec_u128_to_le_bytes(x),
{
    let mut bytes = u128_to_le_bytes(x);
    out.append(&mut bytes);
}

fn put_i128(out: &mut Vec<u8>, x: i128)
    ensures
        final(out)@ == old(out)@ + spec_u128_to_le_bytes(spec_i128_to_u128(x)),
{
    put_u128(out, i128_to_u128(x));
}

fn put_u64(out: &mut Vec<u8>, x: u64)
    ensures
        final(out)@ == old(out)@ + spec_u64_to_le_bytes(x),
{
    let mut bytes = u64_to_le_bytes(x);
    out.append(&mut bytes);
}

fn put_i64(out: &mut Vec<u8>, x: i64)
    ensures
        final(out)@ == old(out)@ + spec_u64_to_le_bytes(spec_i64_to_u64(x)),
{
    put_u64(out, i64_to_u64(x));
}

fn put_u32(out: &mut Vec<u8>, x: u32)
    ensures
        final(out)@ == old(out)@ + spec_u32_to_le_bytes(x),
{
    let mut bytes = u32_to_le_bytes(x);
    out.append(&mut bytes);
}

fn put_u16(out: &mut Vec<u8>, x: u16)
    ensures
        final(out)@ == old(out)@ + spec_u16_to_le_bytes(x),
{
    let mut bytes = u16_to_le_bytes(x);
    out.append(&mut bytes);
}

fn put_u8(out: &mut Vec<u8>, x: u8)
    ensures
        final(out)@ == old(out)@ + seq![x],
{
    out.push(x);
    proof {
        assert(final(out)@ =~= old(out)@ + seq![x]);
    }
}

/// Serialized size of one pool record.
pub const AMM_RECORD_SIZE: usize = 315;

/// The serialized form of a pool record: every field in declaration
/// order, integers little-endian, signed integers as their
/// two's-complement image.
pub open spec fn spec_amm_bytes(a: AMM) -> Seq<u8> {
    spec_u128_to_le_bytes(a.base_asset_reserve) + spec_u128_to_le_bytes(a.quote_asset_reserve)
        + spec_u128_to_le_bytes(a.sqrt_k) + spec_u128_to_le_bytes(a.cumulative_repeg_rebate_long)
        + spec_u128_to_le_bytes(a.cumulative_repeg_rebate_short) + spec_u128_to_le_bytes(
        a.cumulative_funding_rate_long,
    ) + spec_u128_to_le_bytes(a.cumulative_funding_rate_short) + spec_u128_to_le_bytes(
        spec_i128_to_u128(a.last_funding_rate),
    ) + spec_u64_to_le_bytes(spec_i64_to_u64(a.last_funding_rate_ts)) + spec_u64_to_le_bytes(
        spec_i64_to_u64(a.funding_period),
    ) + spec_u128_to_le_bytes(a.peg_multiplier) + spec_u128_to_le_bytes(a.total_fee)
        + spec_u128_to_le_bytes(a.total_fee_minus_distributions) + spec_u128_to_le_bytes(
        a.total_fee_withdrawn,
    ) + spec_u128_to_le_bytes(a.minimum_base_asset_trade_size) + spec_u128_to_le_bytes(
        a.minimum_quote_asset_trade_size,
    ) + spec_u128_to_le_bytes(a.last_mark_price_twap) + spec_u64_to_le_bytes(
        spec_i64_to_u64(a.last_mark_price_twap_ts),
    ) + spec_u64_to_le_bytes(spec_i64_to_u64(a.last_oracle_price_twap_ts))
        + spec_u128_to_le_bytes(spec_i128_to_u128(a.last_oracle_price_twap))
        + spec_u64_to_le_bytes(a.oracle) + spec_u128_to_le_bytes(
        spec_i128_to_u128(a.last_oracle_price),
    ) + spec_u16_to_le_bytes(a.base_spread) + seq![spec_oracle_source_byte(a.oracle_source)]
}

/// The pool record a serialized form deserializes to.
pub open spec fn spec_amm_from_bytes(s: Seq<u8>) -> AMM
    recommends
        s.len() == AMM_RECORD_SIZE,
{
    AMM {
        base_asset_reserve: spec_u128_from_le_bytes(s.subrange(0, 16)),
        quote_asset_reserve: spec_u128_from_le_bytes(s.subrange(16, 32)),
        sqrt_k: spec_u128_from_le_bytes(s.subrange(32, 48)),
        cumulative_repeg_rebate_long: spec_u128_from_le_bytes(s.subrange(48, 64)),
        cumulative_repeg_rebate_short: spec_u128_from_le_bytes(s.subrange(64, 80)),
        cumulative_funding_rate_long: spec_u128_from_le_bytes(s.subrange(80, 96)),
        cumulative_funding_rate_short: spec_u128_from_le_bytes(s.subrange(96, 112)),
        last_funding_rate: spec_u128_to_i128(spec_u128_from_le_bytes(s.subrange(112, 128))),
        last_funding_rate_ts: spec_u64_to_i64(spec_u64_from_le_bytes(s.subrange(128, 136))),
        funding_period: spec_u64_to_i64(spec_u64_from_le_bytes(s.subrange(136, 144))),
        peg_multiplier: spec_u128_from_le_bytes(s.subrange(144, 160)),
        total_fee: spec_u128_from_le_bytes(s.subrange(160, 176)),
        total_fee_minus_distributions: spec_u128_from_le_bytes(s.subrange(176, 192)),
        total_fee_withdrawn: spec_u128_from_le_bytes(s.subrange(192, 208)),
        minimum_base_asset_trade_size: spec_u128_from_le_bytes(s.subrange(208, 224)),
        minimum_quote_asset_trade_size: spec_u128_from_le_bytes(s.subrange(224, 240)),
        last_mark_price_twap: spec_u128_from_le_bytes(s.subrange(240, 256)),
        last_mark_price_twap_ts: spec_u64_to_i64(spec_u64_from_le_bytes(s.subrange(256, 264))),
        last_oracle_price_twap_ts: spec_u64_to_i64(spec_u64_from_le_bytes(s.subrange(264, 272))),
        last_oracle_price_twap: spec_u128_to_i128(spec_u128_from_le_bytes(s.subrange(272, 288))),
        oracle: spec_u64_from_le_bytes(s.subrange(288, 296)),
        last_oracle_price: spec_u128_to_i128(spec_u128_from_le_bytes(s.subrange(296, 312))),
        base_spread: spec_u16_from_le_bytes(s.subrange(312, 314)),
        oracle_source: spec_byte_oracle_source(s[314]),
    }
}

/// Append a pool record's serialized form.
pub fn serialize_amm(out: &mut Vec<u8>, amm: &AMM)
    ensures
        final(out)@ == old(out)@ + spec_amm_bytes(*amm),
        final(out)@.len() == old(out)@.len() + AMM_RECORD_SIZE,
{
    put_u128(out, amm.base_asset_reserve);
    put_u128(out, amm.quote_asset_reserve);
    put_u128(out, amm.sqrt_k);
    put_u128(out, amm.cumulative_repeg_rebate_long);
    put_u128(out, amm.cumulative_repeg_rebate_short);
    put_u128(out, amm.cumulative_funding_rate_long);
    put_u128(out, amm.cumulative_funding_rate_short);
    put_i128(out, amm.last_funding_rate);
    put_i64(out, amm.last_funding_rate_ts);
    put_i64(out, amm.funding_period);
    put_u128(out, amm.peg_multiplier);
    put_u128(out, amm.total_fee);
    put_u128(out, amm.total_fee_minus_distributions);
    put_u128(out, amm.total_fee_withdrawn);
    put_u128(out, amm.minimum_base_asset_trade_size);
    put_u128(out, amm.minimum_quote_asset_trade_size);
    put_u128(out, amm.last_mark_price_twap);
    put_i64(out, amm.last_mark_price_twap_ts);
    put_i64(out, amm.last_oracle_price_twap_ts);
    put_i128(out, amm.last_oracle_price_twap);
    put_u64(out, amm.oracle);
    put_i128(out, amm.last_oracle_price);
    put_u16(out, amm.base_spread);
    let source_byte: u8 = match amm.oracle_source {
        OracleSource::Pyth => 0,
        OracleSource::SwitchBoard => 1,
    };
    put_u8(out, source_byte);
    proof {
        vstd::bytes::lemma_auto_spec_u128_to_from_le_bytes();
        vstd::bytes::lemma_auto_spec_u64_to_from_le_bytes();
        vstd::bytes::lemma_auto_spec_u16_to_from_le_bytes();
        assert(final(out)@ =~= old(out)@ + spec_amm_bytes(*amm));
    }
}

/// Read a pool record back from its serialized form.
pub fn deserialize_amm(s: &[u8]) -> (r: AMM)
    requires
        s@.len() == AMM_RECORD_SIZE,
    ensures
        r == spec_amm_from_bytes(s@),
{
    AMM {
        base_asset_reserve: u128_from_le_bytes(slice_subrange(s, 0, 16)),
        quote_asset_reserve: u128_from_le_bytes(slice_subrange(s, 16, 32)),
        sqrt_k: u128_from_le_bytes(slice_subrange(s, 32, 48)),
        cumulative_repeg_rebate_long: u128_from_le_bytes(slice_subrange(s, 48, 64)),
        cumulative_repeg_rebate_short: u128_from_le_bytes(slice_subrange(s, 64, 80)),
        cumulative_funding_rate_long: u128_from_le_bytes(slice_subrange(s, 80, 96)),
        cumulative_funding_rate_short: u128_from_le_bytes(slice_subrange(s, 96, 112)),
        last_funding_rate: u128_to_i128(u128_from_le_bytes(slice_subrange(s, 112, 128))),
        last_funding_rate_ts: u64_to_i64(u64_from_le_bytes(slice_subrange(s, 128, 136))),
        funding_period: u64_to_i64(u64_from_le_bytes(slice_subrange(s, 136, 144))),
        peg_multiplier: u128_from_le_bytes(slice_subrange(s, 144, 160)),
        total_fee: u128_from_le_bytes(slice_subrange(s, 160, 176)),
        total_fee_minus_distributions: u128_from_le_bytes(slice_subrange(s, 176, 192)),
        total_fee_withdrawn: u128_from_le_bytes(slice_subrange(s, 192, 208)),
        minimum_base_asset_trade_size: u128_from_le_bytes(slice_subrange(s, 208, 224)),
        minimum_quote_asset_trade_size: u128_from_le_bytes(slice_subrange(s, 224, 240)),
        last_mark_price_twap: u128_from_le_bytes(slice_subrange(s, 240, 256)),
        last_mark_price_twap_ts: u64_to_i64(u64_from_le_bytes(slice_subrange(s, 256, 264))),
        last_oracle_price_twap_ts: u64_to_i64(u64_from_le_bytes(slice_subrange(s, 264, 272))),
        last_oracle_price_twap: u128_to_i128(u128_from_le_bytes(slice_subrange(s, 272, 288))),
        oracle: u64_from_le_bytes(slice_subrange(s, 288, 296)),
        last_oracle_price: u128_to_i128(u128_from_le_bytes(slice_subrange(s, 296, 312))),
        base_spread: u16_from_le_bytes(slice_subrange(s, 312, 314)),
        oracle_source: if s[314] == 1 {
            OracleSource::SwitchBoard
        } else {
            OracleSource::Pyth
        },
    }
}

/// Deserializing a serialized pool record returns it exactly.
pub proof fn lemma_amm_round_trip(a: AMM)
    ensures
        spec_amm_bytes(a).len() == AMM_RECORD_SIZE,
        spec_amm_from_bytes(spec_amm_bytes(a)) == a,
{
    vstd::bytes::lemma_auto_spec_u128_to_from_le_bytes();
    vstd::bytes::lemma_auto_spec_u64_to_from_le_bytes();
    vstd::bytes::lemma_auto_spec_u16_to_from_le_bytes();
    let b = spec_amm_bytes(a);
    assert(b.subrange(0, 16) =~= spec_u128_to_le_bytes(a.base_asset_reserve));
    assert(b.subrange(16, 32) =~= spec_u128_to_le_bytes(a.quote_asset_reserve));
    assert(b.subrange(32, 48) =~= spec_u128_to_le_bytes(a.sqrt_k));
    assert(b.subrange(48, 64) =~= spec_u128_to_le_bytes(a.cumulative_repeg_rebate_long));
    assert(b.subrange(64, 80) =~= spec_u128_to_le_bytes(a.cumulative_repeg_rebate_short));
    assert(b.subrange(80, 96) =~= spec_u128_to_le_bytes(a.cumulative_funding_rate_long));
    assert(b.subrange(96, 112) =~= spec_u128_to_le_bytes(a.cumulative_funding_rate_short));
    assert(b.subrange(112, 128) =~= spec_u128_to_le_bytes(spec_i128_to_u128(a.last_funding_rate)));
    assert(b.subrange(128, 136) =~= spec_u64_to_le_bytes(spec_i64_to_u64(a.last_funding_rate_ts)));
    assert(b.subrange(136, 144) =~= spec_u64_to_le_bytes(spec_i64_to_u64(a.funding_period)));
    assert(b.subrange(144, 160) =~= spec_u128_to_le_bytes(a.peg_multiplier));
    assert(b.subrange(160, 176) =~= spec_u128_to_le_bytes(a.total_fee));
    assert(b.subrange(176, 192) =~= spec_u128_to_le_bytes(a.total_fee_minus_distributions));
    assert(b.subrange(192, 208) =~= spec_u128_to_le_bytes(a.total_fee_withdrawn));
    assert(b.subrange(208, 224) =~= spec_u128_to_le_bytes(a.minimum_base_asset_trade_size));
    assert(b.subrange(224, 240) =~= spec_u128_to_le_bytes(a.minimum_quote_asset_trade_size));
    assert(b.subrange(240, 256) =~= spec_u128_to_le_bytes(a.last_mark_price_twap));
    assert(b.subrange(256, 264) =~= spec_u64_to_le_bytes(
        spec_i64_to_u64(a.last_mark_price_twap_ts),
    ));
    assert(b.subrange(264, 272) =~= spec_u64_to_le_bytes(
        spec_i64_to_u64(a.last_oracle_price_twap_ts),
    ));
    assert(b.subrange(272, 288) =~= spec_u128_to_le_bytes(
        spec_i128_to_u128(a.last_oracle_price_twap),
    ));
    assert(b.subrange(288, 296) =~= spec_u64_to_le_bytes(a.oracle));
    assert(b.subrange(296, 312) =~= spec_u128_to_le_bytes(spec_i128_to_u128(a.last_oracle_price)));
    assert(b.subrange(312, 314) =~= spec_u16_to_le_bytes(a.base_spread));
    assert(b[314] == spec_oracle_source_byte(a.oracle_source));
}

/// Serialized size of one market record.
pub const MARKET_RECORD_SIZE: usize = 392;

/// The serialized form of a market record.
pub open spec fn spec_market_bytes(m: Market) -> Seq<u8> {
    spec_u128_to_le_bytes(spec_i128_to_u128(m.base_asset_amount_long)) + spec_u128_to_le_bytes(
        spec_i128_to_u128(m.base_asset_amount_short),
    ) + spec_u128_to_le_bytes(spec_i128_to_u128(m.base_asset_amount)) + spec_u128_to_le_bytes(
        m.open_interest,
    ) + spec_amm_bytes(m.amm) + spec_u32_to_le_bytes(m.margin_ratio_initial)
        + spec_u32_to_le_bytes(m.margin_ratio_partial) + spec_u32_to_le_bytes(
        m.margin_ratio_maintenance,
    ) + seq![spec_bool_byte(m.initialized)]
}

/// The market record a serialized form deserializes to.
pub open spec fn spec_market_from_bytes(s: Seq<u8>) -> Market
    recommends
        s.len() == MARKET_RECORD_SIZE,
{
    Market {
        base_asset_amount_long: spec_u128_to_i128(spec_u128_from_le_bytes(s.subrange(0, 16))),
        base_asset_amount_short: spec_u128_to_i128(spec_u128_from_le_bytes(s.subrange(16, 32))),
        base_asset_amount: spec_u128_to_i128(spec_u128_from_le_bytes(s.subrange(32, 48))),
        open_interest: spec_u128_from_le_bytes(s.subrange(48, 64)),
        amm: spec_amm_from_bytes(s.subrange(64, 379)),
        margin_ratio_initial: spec_u32_from_le_bytes(s.subrange(379, 383)),
        margin_ratio_partial: spec_u32_from_le_bytes(s.subrange(383, 387)),
        margin_ratio_maintenance: spec_u32_from_le_bytes(s.subrange(387, 391)),
        initialized: s[391] != 0,
    }
}

/// Append a market record's serialized form.
pub fn serialize_market(out: &mut Vec<u8>, market: &Market)
    ensures
        final(out)@ == old(out)@ + spec_market_bytes(*market),
        final(out)@.len() == old(out)@.len() + MARKET_RECORD_SIZE,
{
    put_i128(out, market.base_asset_amount_long);
    put_i128(out, market.base_asset_amount_short);
    put_i128(out, market.base_asset_amount);
    put_u128(out, market.open_interest);
    serialize_amm(out, &market.amm);
    put_u32(out, market.margin_ratio_initial);
    put_u32(out, market.margin_ratio_partial);
    put_u32(out, market.margin_ratio_maintenance);
    put_u8(out, if market.initialized {
        1
    } else {
        0
    });
    proof {
        vstd::bytes::lemma_auto_spec_u128_to_from_le_bytes();
        vstd::bytes::lemma_auto_spec_u32_to_from_le_bytes();
        lemma_amm_round_trip(market.amm);
        assert(final(out)@ =~= old(out)@ + spec_market_bytes(*market));
    }
}

/// Read a market record back from its serialized form.
pub fn deserialize_market(s: &[u8]) -> (r: Market)
    requires
        s@.len() == MARKET_RECORD_SIZE,
    ensures
        r == spec_market_from_bytes(s@),
{
    Market {
        base_asset_amount_long: u128_to_i128(u128_from_le_bytes(slice_subrange(s, 0, 16))),
        base_asset_amount_short: u128_to_i128(u128_from_le_bytes(slice_subrange(s, 16, 32))),
        base_asset_amount: u128_to_i128(u128_from_le_bytes(slice_subrange(s, 32, 48))),
        open_interest: u128_from_le_bytes(slice_subrange(s, 48, 64)),
        amm: deserialize_amm(slice_subrange(s, 64, 379)),
        margin_ratio_initial: u32_from_le_bytes(slice_subrange(s, 379, 383)),
        margin_ratio_partial: u32_from_le_bytes(slice_subrange(s, 383, 387)),
        margin_ratio_maintenance: u32_from_le_bytes(slice_subrange(s, 387, 391)),
        initialized: s[391] != 0,
    }
}

/// Deserializing a serialized market record returns it exactly.
pub proof fn lemma_market_round_trip(m: Market)
    ensures
        spec_market_bytes(m).len() == MARKET_RECORD_SIZE,
        spec_market_from_bytes(spec_market_bytes(m)) == m,
{
    vstd::bytes::lemma_auto_spec_u128_to_from_le_bytes();
    vstd::bytes::lemma_auto_spec_u32_to_from_le_bytes();
    lemma_amm_round_trip(m.amm);
    let b = spec_market_bytes(m);
    assert(b.subrange(0, 16) =~= spec_u128_to_le_bytes(
        spec_i128_to_u128(m.base_asset_amount_long),
    ));
    assert(b.subrange(16, 32) =~= spec_u128_to_le_bytes(
        spec_i128_to_u128(m.base_asset_amount_short),
    ));
    assert(b.subrange(32, 48) =~= spec_u128_to_le_bytes(spec_i128_to_u128(m.base_asset_amount)));
    assert(b.subrange(48, 64) =~= spec_u128_to_le_bytes(m.open_interest));
    assert(b.subrange(64, 379) =~= spec_amm_bytes(m.amm));
    assert(b.subrange(379, 383) =~= spec_u32_to_le_bytes(m.margin_ratio_initial));
    assert(b.subrange(383, 387) =~= spec_u32_to_le_bytes(m.margin_ratio_partial));
    assert(b.subrange(387, 391) =~= spec_u32_to_le_bytes(m.margin_ratio_maintenance));
    assert(b[391] == spec_bool_byte(m.initialized));
}

/// Serialized size of the whole markets table: `MARKET_CAPACITY`
/// records of `MARKET_RECORD_SIZE` bytes, no internal fragmentation.
pub const MARKETS_TABLE_SIZE: usize = 25088;

/// The serialized form of the first `n` records of a table.
pub open spec fn spec_markets_bytes_prefix(records: Seq<Market>, n: int) -> Seq<u8>
    decreases n,
{
    if n <= 0 {
        Seq::empty()
    } else {
        spec_markets_bytes_prefix(records, n - 1) + spec_market_bytes(records[n - 1])
    }
}

/// The serialized form of the whole markets table: its records back
/// to back, in slot order.
pub open spec fn spec_markets_bytes(table: Markets) -> Seq<u8> {
    spec_markets_bytes_prefix(table.markets@, MARKET_CAPACITY as int)
}

/// Each record of a serialized prefix occupies its own
/// `MARKET_RECORD_SIZE`-byte window, in slot order.
pub proof fn lemma_markets_prefix(records: Seq<Market>, n: int)
    requires
        0 <= n <= records.len(),
    ensures
        spec_markets_bytes_prefix(records, n).len() == n * (MARKET_RECORD_SIZE as int),
        forall|k: int|
            0 <= k < n ==> #[trigger] spec_markets_bytes_prefix(records, n).subrange(
                (MARKET_RECORD_SIZE as int) * k,
                (MARKET_RECORD_SIZE as int) * (k + 1),
            ) == spec_market_bytes(records[k]),
    decreases n,
{
    if n > 0 {
        lemma_markets_prefix(records, n - 1);
        lemma_market_round_trip(records[n - 1]);
        let whole = spec_markets_bytes_prefix(records, n);
        let size = MARKET_RECORD_SIZE as int;
        assert forall|k: int| 0 <= k < n implies #[trigger] whole.subrange(
            size * k,
            size * (k + 1),
        ) == spec_market_bytes(records[k]) by {
            if k < n - 1 {
                assert(whole.subrange(size * k, size * (k + 1)) =~= spec_markets_bytes_prefix(
                    records,
                    n - 1,
                ).subrange(size * k, size * (k + 1)));
            } else {
                assert(whole.subrange(size * k, size * (k + 1)) =~= spec_market_bytes(
                    records[k],
                ));
            }
        }
    }
}

/// Serialize the whole markets table.
pub fn serialize_markets(table: &Markets) -> (out: Vec<u8>)
    requires
        table.markets.len() == MARKET_CAPACITY,
    ensures
        out@ == spec_markets_bytes(*table),
        out@.len() == MARKETS_TABLE_SIZE,
{
    let mut out: Vec<u8> = Vec::new();
    let mut i: usize = 0;
    while i < MARKET_CAPACITY
        invariant
            i <= MARKET_CAPACITY,
            table.markets.len() == MARKET_CAPACITY,
            out@ == spec_markets_bytes_prefix(table.markets@, i as int),
            out@.len() == i * MARKET_RECORD_SIZE,
        decreases MARKET_CAPACITY - i,
    {
        serialize_market(&mut out, &table.markets[i]);
        i = i + 1;
    }
    out
}

/// Read the whole markets table back from its serialized form.
pub fn deserialize_markets(s: &[u8]) -> (r: Markets)
    requires
        s@.len() == MARKETS_TABLE_SIZE,
    ensures
        r.markets.len() == MARKET_CAPACITY,
        forall|k: int|
            0 <= k < MARKET_CAPACITY ==> #[trigger] r.markets@[k] == spec_market_from_bytes(
                s@.subrange(
                    (MARKET_RECORD_SIZE as int) * k,
                    (MARKET_RECORD_SIZE as int) * (k + 1),
                ),
            ),
{
    let mut records: Vec<Market> = Vec::new();
    let mut i: usize = 0;
    while i < MARKET_CAPACITY
        invariant
            i <= MARKET_CAPACITY,
            s@.len() == MARKETS_TABLE_SIZE,
            records.len() == i,
            forall|k: int|
                0 <= k < i ==> #[trigger] records@[k] == spec_market_from_bytes(
                    s@.subrange(
                        (MARKET_RECORD_SIZE as int) * k,
                        (MARKET_RECORD_SIZE as int) * (k + 1),
                    ),
                ),
        decreases MARKET_CAPACITY - i,
    {
        let offset = i * MARKET_RECORD_SIZE;
        let record = deserialize_market(slice_subrange(s, offset, offset + MARKET_RECORD_SIZE));
        records.push(record);
        i = i + 1;
    }
    Markets { markets: records }
}

/// Deserializing a serialized markets table returns every slot
/// exactly; the serialized table always occupies
/// `MARKETS_TABLE_SIZE` bytes.
pub proof fn lemma_markets_round_trip(table: Markets)
    requires
        table.markets.len() == MARKET_CAPACITY,
    ensures
        spec_markets_bytes(table).len() == MARKETS_TABLE_SIZE,
        forall|k: int|
            0 <= k < MARKET_CAPACITY ==> #[trigger] spec_market_from_bytes(
                spec_markets_bytes(table).subrange(
                    (MARKET_RECORD_SIZE as int) * k,
                    (MARKET_RECORD_SIZE as int) * (k + 1),
                ),
            ) == table.markets@[k],
{
    lemma_markets_prefix(table.markets@, MARKET_CAPACITY as int);
    assert forall|k: int| 0 <= k < MARKET_CAPACITY implies #[trigger] spec_market_from_bytes(
        spec_markets_bytes(table).subrange(
            (MARKET_RECORD_SIZE as int) * k,
            (MARKET_RECORD_SIZE as int) * (k + 1),
        ),
    ) == table.markets@[k] by {
        lemma_market_round_trip(table.markets@[k]);
    }
}

} // verus!
