//! Margin calculation: position value, unrealized profit and loss,
//! margin ratio, and classification against a market's thresholds.

use vstd::prelude::*;

use crate::errors::Errors;
use crate::market::{Market, AMM};
use crate::math::{
    add_u128, lemma_tdiv_monotone, mul_div_u128, mul_u128, tdiv, MARGIN_PRECISION,
    MARK_PRICE_PRECISION,
};

verus! {

/// One user's position in one market: signed base exposure (positive
/// long, negative short) and the quote-asset cost basis at entry.
#[derive(Clone, Copy, Debug, PartialEq, Eq, Structural)]
pub struct MarketPosition {
    pub base_asset_amount: i128,
    pub quote_asset_amount: u128,
}

/// Absolute base exposure of a position.
pub open spec fn position_magnitude(p: MarketPosition) -> int {
    if p.base_asset_amount >= 0 {
        p.base_asset_amount as int
    } else {
        -(p.base_asset_amount as int)
    }
}

/// The position's current notional: absolute base exposure times the
/// mark price, descaled, rounding down.
pub open spec fn base_asset_value_of(p: MarketPosition, amm: AMM) -> int
    recommends
        amm.base_asset_reserve > 0,
{
    position_magnitude(p) * amm.spec_mark_price() / (MARK_PRICE_PRECISION as int)
}

/// The position's value cannot be computed at `u128` width.
pub open spec fn value_overflows(p: MarketPosition, amm: AMM) -> bool {
    ||| amm.mark_price_full() > u128::MAX
    ||| position_magnitude(p) * amm.spec_mark_price() > u128::MAX
}

/// Unrealized profit and loss: current notional against the entry
/// cost basis, signed by the position's direction.
pub open spec fn pnl_of(p: MarketPosition, amm: AMM) -> int
    recommends
        amm.base_asset_reserve > 0,
{
    if p.base_asset_amount >= 0 {
        base_asset_value_of(p, amm) - p.quote_asset_amount
    } else {
        p.quote_asset_amount - base_asset_value_of(p, amm)
    }
}

/// The profit and loss cannot be computed within machine ranges.
pub open spec fn pnl_overflows(p: MarketPosition, amm: AMM) -> bool {
    ||| value_overflows(p, amm)
    ||| !(-(i128::MAX as int) <= pnl_of(p, amm) <= i128::MAX)
}

/// Free collateral backing the position: deposited collateral plus
/// unrealized profit and loss.
pub open spec fn total_collateral_of(p: MarketPosition, amm: AMM, collateral: int) -> int {
    collateral + pnl_of(p, amm)
}

/// The margin ratio in basis points: total collateral over position
/// notional, rounding the magnitude down.
pub open spec fn margin_ratio_of(p: MarketPosition, amm: AMM, collateral: int) -> int
    recommends
        base_asset_value_of(p, amm) > 0,
{
    tdiv(total_collateral_of(p, amm, collateral) * MARGIN_PRECISION, base_asset_value_of(p, amm))
}

/// The margin ratio cannot be computed within machine ranges.
pub open spec fn margin_ratio_overflows(p: MarketPosition, amm: AMM, collateral: int) -> bool {
    ||| pnl_overflows(p, amm)
    ||| (base_asset_value_of(p, amm) > 0 && (if total_collateral_of(p, amm, collateral) >= 0 {
        total_collateral_of(p, amm, collateral)
    } else {
        -total_collateral_of(p, amm, collateral)
    }) * MARGIN_PRECISION > u128::MAX)
    ||| (base_asset_value_of(p, amm) > 0 && !(-(i128::MAX as int) <= margin_ratio_of(
        p,
        amm,
        collateral,
    ) <= i128::MAX))
}

/// Current notional value of a position against the pool's mark
/// price, rounding down; a product beyond `u128` fails loudly.
pub fn base_asset_value(position: &MarketPosition, amm: &AMM) -> (r: Result<u128, Errors>)
    requires
        amm.wf(),
        position.base_asset_amount > i128::MIN,
    ensures
        !value_overflows(*position, *amm) ==> r == Ok::<u128, Errors>(
            base_asset_value_of(*position, *amm) as u128,
        ),
        value_overflows(*position, *amm) ==> r == Err::<u128, Errors>(Errors::MathError),
{
    let mark = match amm.get_mark_price() {
        Ok(v) => v,
        Err(e) => {
            return Err(e);
        },
    };
    let magnitude: u128 = if position.base_asset_amount >= 0 {
        position.base_asset_amount as u128
    } else {
        (-position.base_asset_amount) as u128
    };
    mul_div_u128(magnitude, mark, MARK_PRICE_PRECISION)
}

/// Unrealized profit and loss of a position, signed; a result beyond
/// the `i128` range fails loudly.
pub fn unrealized_pnl(position: &MarketPosition, amm: &AMM) -> (r: Result<i128, Errors>)
    requires
        amm.wf(),
        position.base_asset_amount > i128::MIN,
    ensures
        !pnl_overflows(*position, *amm) ==> r == Ok::<i128, Errors>(
            pnl_of(*position, *amm) as i128,
        ),
        pnl_overflows(*position, *amm) ==> r == Err::<i128, Errors>(Errors::MathError),
{
    let value = match base_asset_value(position, amm) {
        Ok(v) => v,
        Err(e) => {
            return Err(e);
        },
    };
    let entry = position.quote_asset_amount;
    let (gain, magnitude): (bool, u128) = if position.base_asset_amount >= 0 {
        if value >= entry {
            (true, value - entry)
        } else {
            (false, entry - value)
        }
    } else {
        if entry >= value {
            (true, entry - value)
        } else {
            (false, value - entry)
        }
    };
    if magnitude > (i128::MAX as u128) {
        return Err(Errors::MathError);
    }
    if gain {
        Ok(magnitude as i128)
    } else {
        Ok(-(magnitude as i128))
    }
}

/// The margin ratio of a position in basis points:
/// `(collateral + unrealized_pnl) / |position notional|`, scaled by
/// `MARGIN_PRECISION`, the magnitude rounding down.
///
/// An empty position, or one whose notional rounds down to zero, has
/// nothing to margin and reports the maximal ratio.
pub fn margin_ratio(position: &MarketPosition, amm: &AMM, collateral: u128) -> (r: Result<
    i128,
    Errors,
>)
    requires
        amm.wf(),
        position.base_asset_amount > i128::MIN,
    ensures
        position.base_asset_amount == 0 ==> r == Ok::<i128, Errors>(i128::MAX),
        position.base_asset_amount != 0 && margin_ratio_overflows(
            *position,
            *amm,
            collateral as int,
        ) ==> r == Err::<i128, Errors>(Errors::MathError),
        position.base_asset_amount != 0 && !margin_ratio_overflows(
            *position,
            *amm,
            collateral as int,
        ) && base_asset_value_of(*position, *amm) == 0 ==> r == Ok::<i128, Errors>(i128::MAX),
        position.base_asset_amount != 0 && !margin_ratio_overflows(
            *position,
            *amm,
            collateral as int,
        ) && base_asset_value_of(*position, *amm) > 0 ==> r == Ok::<i128, Errors>(
            margin_ratio_of(*position, *amm, collateral as int) as i128,
        ),
{
    if position.base_asset_amount == 0 {
        return Ok(i128::MAX);
    }
    let pnl = match unrealized_pnl(position, amm) {
        Ok(v) => v,
        Err(e) => {
            return Err(e);
        },
    };
    let value = match base_asset_value(position, amm) {
        Ok(v) => v,
        Err(e) => {
            return Err(e);
        },
    };
    if value == 0 {
        return Ok(i128::MAX);
    }
    let (negative, collateral_magnitude): (bool, u128) = if pnl >= 0 {
        match add_u128(collateral, pnl as u128) {
            Ok(v) => (false, v),
            Err(e) => {
                return Err(e);
            },
        }
    } else {
        let loss = (-pnl) as u128;
        if collateral >= loss {
            (false, collateral - loss)
        } else {
            (true, loss - collateral)
        }
    };
    let scaled = match mul_u128(collateral_magnitude, MARGIN_PRECISION) {
        Ok(v) => v,
        Err(e) => {
            return Err(e);
        },
    };
    let ratio_magnitude = scaled / value;
    if ratio_magnitude > (i128::MAX as u128) {
        return Err(Errors::MathError);
    }
    if negative {
        Ok(-(ratio_magnitude as i128))
    } else {
        Ok(ratio_magnitude as i128)
    }
}

/// The liquidation band a margin ratio falls into.  Bands are
/// inclusive on their lower threshold: a ratio exactly at a threshold
/// belongs to the safer band.
#[derive(Clone, Copy, Debug, PartialEq, Eq, Structural)]
pub enum LiquidationStatus {
    Healthy,
    PartialLiquidatable,
    FullyLiquidatable,
}

/// Band of a margin ratio against a market's thresholds: below
/// maintenance the position is fully liquidatable, below partial (but
/// at least maintenance) partially, otherwise healthy.
pub open spec fn spec_classify(ratio: int, market: Market) -> LiquidationStatus {
    if ratio < market.margin_ratio_maintenance {
        LiquidationStatus::FullyLiquidatable
    } else if ratio < market.margin_ratio_partial {
        LiquidationStatus::PartialLiquidatable
    } else {
        LiquidationStatus::Healthy
    }
}

/// Order of the bands from safe to severe.
pub open spec fn severity(s: LiquidationStatus) -> int {
    match s {
        LiquidationStatus::Healthy => 0,
        LiquidationStatus::PartialLiquidatable => 1,
        LiquidationStatus::FullyLiquidatable => 2,
    }
}

/// Classify a margin ratio against the market's thresholds.
pub fn classify(ratio: i128, market: &Market) -> (s: LiquidationStatus)
    requires
        market.margin_ratios_ordered(),
    ensures
        s == spec_classify(ratio as int, *market),
{
    if ratio < (market.margin_ratio_maintenance as i128) {
        LiquidationStatus::FullyLiquidatable
    } else if ratio < (market.margin_ratio_partial as i128) {
        LiquidationStatus::PartialLiquidatable
    } else {
        LiquidationStatus::Healthy
    }
}

/// Whether a margin ratio clears the bar for opening a new position.
pub fn meets_initial_margin(ratio: i128, market: &Market) -> (r: bool)
    ensures
        r == (ratio >= market.margin_ratio_initial),
{
    ratio >= (market.margin_ratio_initial as i128)
}

/// Liquidation classification is monotonic in collateral: with the
/// position and market held fixed, lowering the collateral never
/// moves the position to a less severe band.
pub proof fn lemma_classification_monotonic_in_collateral(
    p: MarketPosition,
    amm: AMM,
    market: Market,
    collateral_low: int,
    collateral_high: int,
)
    requires
        collateral_low <= collateral_high,
        base_asset_value_of(p, amm) > 0,
    ensures
        severity(spec_classify(margin_ratio_of(p, amm, collateral_low), market)) >= severity(
            spec_classify(margin_ratio_of(p, amm, collateral_high), market),
        ),
{
    let value = base_asset_value_of(p, amm);
    let low_scaled = total_collateral_of(p, amm, collateral_low) * MARGIN_PRECISION;
    let high_scaled = total_collateral_of(p, amm, collateral_high) * MARGIN_PRECISION;
    lemma_tdiv_monotone(low_scaled, high_scaled, value);
}

} // verus!
