//! The liquidation engine: decides between partial and full
//! liquidation of an unhealthy position and computes the resulting
//! penalty split.
//!
//! The engine only classifies and computes; the returned outcome is a
//! value object the external collaborator applies atomically.  A
//! position moves monotonically with its margin ratio — it may go
//! straight from healthy to fully liquidatable with no forced stop at
//! the partial band.

use vstd::arithmetic::div_mod::lemma_div_nonincreasing;
use vstd::prelude::*;

use crate::errors::Errors;
use crate::margin::{
    base_asset_value, base_asset_value_of, margin_ratio, margin_ratio_of, margin_ratio_overflows,
    spec_classify, LiquidationStatus, MarketPosition,
};
use crate::market::Market;
use crate::math::{lemma_ratio_le, mul_div_u128};
use crate::oracle::{spec_validate, validate, validate_overflows, OracleReading, OracleStatus};
use crate::state::State;

verus! {

/// The deltas a liquidation produces, for the collaborator to apply
/// atomically: how much notional closes, the penalty taken from the
/// position's collateral, and its split between the liquidator and
/// the insurance vault.
#[derive(Clone, Copy, Debug, PartialEq, Eq, Structural)]
pub struct LiquidationOutcome {
    pub status: LiquidationStatus,
    pub base_asset_value: u128,
    pub closed_notional: u128,
    pub penalty: u128,
    pub liquidator_share: u128,
    pub insurance_share: u128,
}

/// Notional closed by a partial liquidation.
pub open spec fn partial_closed_of(state: State, value: int) -> int {
    value * state.partial_liquidation_close_percentage_numerator
        / (state.partial_liquidation_close_percentage_denominator as int)
}

/// Penalty of a partial liquidation, taken on the closed notional.
pub open spec fn partial_penalty_of(state: State, value: int) -> int {
    partial_closed_of(state, value) * state.partial_liquidation_penalty_percentage_numerator
        / (state.partial_liquidation_penalty_percentage_denominator as int)
}

/// Penalty of a full liquidation, taken on the whole notional.
pub open spec fn full_penalty_of(state: State, value: int) -> int {
    value * state.full_liquidation_penalty_percentage_numerator
        / (state.full_liquidation_penalty_percentage_denominator as int)
}

/// A product of the partial-liquidation arithmetic does not fit in
/// `u128`.
pub open spec fn partial_overflows(state: State, value: int) -> bool {
    ||| value * state.partial_liquidation_close_percentage_numerator > u128::MAX
    ||| partial_closed_of(state, value) * state.partial_liquidation_penalty_percentage_numerator
        > u128::MAX
}

/// A product of the full-liquidation arithmetic does not fit in
/// `u128`.
pub open spec fn full_overflows(state: State, value: int) -> bool {
    value * state.full_liquidation_penalty_percentage_numerator > u128::MAX
}

/// The error raised by the oracle check that guards liquidations, if
/// any.  With `use_for_liquidations` clear, decisions rest on the
/// mark price alone and no reading is consulted; with it set, the
/// reading must validate cleanly, and each way of failing keeps its
/// own error.
pub open spec fn oracle_gating_error(
    market: Market,
    state: State,
    reading: OracleReading,
    current_slot: int,
) -> Option<Errors> {
    if !state.oracle_guard_rails.use_for_liquidations {
        None
    } else if market.amm.mark_price_full() > u128::MAX {
        Some(Errors::MathError)
    } else if market.amm.spec_mark_price() > i128::MAX {
        Some(Errors::MathError)
    } else if validate_overflows(
        reading,
        current_slot,
        market.amm.last_oracle_price as int,
        market.amm.spec_mark_price(),
        state.oracle_guard_rails,
    ) {
        Some(Errors::MathError)
    } else {
        match spec_validate(
            reading,
            current_slot,
            market.amm.last_oracle_price as int,
            market.amm.spec_mark_price(),
            state.oracle_guard_rails,
        ) {
            OracleStatus::Valid => None,
            OracleStatus::Stale => Some(Errors::OracleStale),
            OracleStatus::TooVolatile => Some(Errors::OracleTooVolatile),
            OracleStatus::Diverged => Some(Errors::OracleDiverged),
        }
    }
}

/// The exact outcome `evaluate` returns: the oracle gate first, then
/// margin classification, then the band's arithmetic.
pub open spec fn spec_evaluate(
    position: MarketPosition,
    market: Market,
    collateral: int,
    state: State,
    reading: OracleReading,
    current_slot: int,
) -> Result<LiquidationOutcome, Errors> {
    match oracle_gating_error(market, state, reading, current_slot) {
        Some(e) => Err(e),
        None => {
            if position.base_asset_amount == 0 {
                Err(Errors::SufficientCollateral)
            } else if margin_ratio_overflows(position, market.amm, collateral) {
                Err(Errors::MathError)
            } else {
                let value = base_asset_value_of(position, market.amm);
                if value == 0 {
                    Err(Errors::SufficientCollateral)
                } else {
                    let status = spec_classify(
                        margin_ratio_of(position, market.amm, collateral),
                        market,
                    );
                    if status == LiquidationStatus::Healthy {
                        Err(Errors::SufficientCollateral)
                    } else if status == LiquidationStatus::PartialLiquidatable {
                        if partial_overflows(state, value) {
                            Err(Errors::MathError)
                        } else {
                            let penalty = partial_penalty_of(state, value);
                            let share = penalty / (
                            state.partial_liquidation_liquidator_share_denominator as int);
                            Ok(
                                LiquidationOutcome {
                                    status,
                                    base_asset_value: value as u128,
                                    closed_notional: partial_closed_of(state, value) as u128,
                                    penalty: penalty as u128,
                                    liquidator_share: share as u128,
                                    insurance_share: (penalty - share) as u128,
                                },
                            )
                        }
                    } else {
                        if full_overflows(state, value) {
                            Err(Errors::MathError)
                        } else {
                            let penalty = full_penalty_of(state, value);
                            let share = penalty / (
                            state.full_liquidation_liquidator_share_denominator as int);
                            Ok(
                                LiquidationOutcome {
                                    status,
                                    base_asset_value: value as u128,
                                    closed_notional: value as u128,
                                    penalty: penalty as u128,
                                    liquidator_share: share as u128,
                                    insurance_share: (penalty - share) as u128,
                                },
                            )
                        }
                    }
                }
            }
        },
    }
}

/// Evaluate a liquidation request for one position.
///
/// With the oracle gate enabled, a reading that fails validation
/// rejects the attempt regardless of the margin ratio.  A healthy
/// position (including an empty one, or one whose notional rounds to
/// zero) is a domain violation and is rejected before anything is
/// computed for it.  A partially liquidatable position closes the
/// configured fraction of its notional and pays the partial penalty
/// on the closed amount; a fully liquidatable one closes everything
/// and pays the full penalty.  The liquidator receives the penalty
/// divided by the configured share denominator and the insurance
/// vault the exact remainder; nothing is mutated here.
pub fn evaluate(
    position: &MarketPosition,
    market: &Market,
    collateral: u128,
    state: &State,
    reading: &OracleReading,
    current_slot: u64,
) -> (r: Result<LiquidationOutcome, Errors>)
    requires
        state.wf(),
        market.wf(),
        market.initialized,
        position.base_asset_amount > i128::MIN,
    ensures
        r == spec_evaluate(
            *position,
            *market,
            collateral as int,
            *state,
            *reading,
            current_slot as int,
        ),
        r matches Ok(outcome) ==> {
            &&& outcome.penalty <= outcome.closed_notional <= outcome.base_asset_value
            &&& outcome.liquidator_share <= outcome.penalty
            &&& outcome.insurance_share == outcome.penalty - outcome.liquidator_share
        },
{
    // Oracle gate.
    if state.oracle_guard_rails.use_for_liquidations {
        let mark = match market.amm.get_mark_price() {
            Ok(v) => v,
            Err(e) => {
                return Err(e);
            },
        };
        if mark > (i128::MAX as u128) {
            return Err(Errors::MathError);
        }
        let status = match validate(
            reading,
            current_slot,
            market.amm.last_oracle_price,
            mark,
            &state.oracle_guard_rails,
        ) {
            Ok(v) => v,
            Err(e) => {
                return Err(e);
            },
        };
        match status {
            OracleStatus::Valid => {},
            OracleStatus::Stale => {
                return Err(Errors::OracleStale);
            },
            OracleStatus::TooVolatile => {
                return Err(Errors::OracleTooVolatile);
            },
            OracleStatus::Diverged => {
                return Err(Errors::OracleDiverged);
            },
        }
    }
    // Margin classification.
    if position.base_asset_amount == 0 {
        return Err(Errors::SufficientCollateral);
    }
    let ratio = match margin_ratio(position, &market.amm, collateral) {
        Ok(v) => v,
        Err(e) => {
            return Err(e);
        },
    };
    let value = match base_asset_value(position, &market.amm) {
        Ok(v) => v,
        Err(e) => {
            return Err(e);
        },
    };
    if value == 0 {
        return Err(Errors::SufficientCollateral);
    }
    let status = if ratio < (market.margin_ratio_maintenance as i128) {
        LiquidationStatus::FullyLiquidatable
    } else if ratio < (market.margin_ratio_partial as i128) {
        LiquidationStatus::PartialLiquidatable
    } else {
        return Err(Errors::SufficientCollateral);
    };
    // Band arithmetic.
    if status == LiquidationStatus::PartialLiquidatable {
        let closed = match mul_div_u128(
            value,
            state.partial_liquidation_close_percentage_numerator,
            state.partial_liquidation_close_percentage_denominator,
        ) {
            Ok(v) => v,
            Err(e) => {
                return Err(e);
            },
        };
        let penalty = match mul_div_u128(
            closed,
            state.partial_liquidation_penalty_percentage_numerator,
            state.partial_liquidation_penalty_percentage_denominator,
        ) {
            Ok(v) => v,
            Err(e) => {
                return Err(e);
            },
        };
        let liquidator_share = penalty / (
        state.partial_liquidation_liquidator_share_denominator as u128);
        proof {
            lemma_ratio_le(
                value as int,
                state.partial_liquidation_close_percentage_numerator as int,
                state.partial_liquidation_close_percentage_denominator as int,
            );
            lemma_ratio_le(
                closed as int,
                state.partial_liquidation_penalty_percentage_numerator as int,
                state.partial_liquidation_penalty_percentage_denominator as int,
            );
            lemma_div_nonincreasing(
                penalty as int,
                state.partial_liquidation_liquidator_share_denominator as int,
            );
        }
        Ok(
            LiquidationOutcome {
                status,
                base_asset_value: value,
                closed_notional: closed,
                penalty,
                liquidator_share,
                insurance_share: penalty - liquidator_share,
            },
        )
    } else {
        let penalty = match mul_div_u128(
            value,
            state.full_liquidation_penalty_percentage_numerator,
            state.full_liquidation_penalty_percentage_denominator,
        ) {
            Ok(v) => v,
            Err(e) => {
                return Err(e);
            },
        };
        let liquidator_share = penalty / (state.full_liquidation_liquidator_share_denominator
            as u128);
        proof {
            lemma_ratio_le(
                value as int,
                state.full_liquidation_penalty_percentage_numerator as int,
                state.full_liquidation_penalty_percentage_denominator as int,
            );
            lemma_div_nonincreasing(
                penalty as int,
                state.full_liquidation_liquidator_share_denominator as int,
            );
        }
        Ok(
            LiquidationOutcome {
                status,
                base_asset_value: value,
                closed_notional: value,
                penalty,
                liquidator_share,
                insurance_share: penalty - liquidator_share,
            },
        )
    }
}

} // verus!
