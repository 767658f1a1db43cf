//! Oracle guard rails: an external price reading must be fresh, calm
//! and close to the mark price before the engine may rely on it.

use vstd::prelude::*;

use crate::errors::Errors;

verus! {

/// One oracle observation as the collaborator hands it in: the
/// reported price, the oracle's own confidence interval (same scale
/// as the price), and the slot the reading was published in.
#[derive(Clone, Copy, Debug, PartialEq, Eq, Structural)]
pub struct OracleReading {
    pub price: i128,
    pub confidence: u128,
    pub slot: u64,
}

/// Divergence limit between mark and oracle price, as a fraction.
#[derive(Clone, Copy, Debug, PartialEq, Eq, Structural)]
pub struct PriceDivergenceGuardRails {
    pub mark_oracle_divergence_numerator: u128,
    pub mark_oracle_divergence_denominator: u128,
}

/// Freshness and volatility limits on the oracle reading itself.
#[derive(Clone, Copy, Debug, PartialEq, Eq, Structural)]
pub struct ValidityGuardRails {
    /// A reading older than this many slots is stale.
    pub slots_before_stable: u64,
    /// Largest acceptable confidence interval.
    pub confidence_interval_max_size: u128,
    /// Largest acceptable ratio between consecutive prices.
    pub too_volatile_ratio: u128,
}

/// All oracle guard rails, and whether they gate liquidations.
#[derive(Clone, Copy, Debug, PartialEq, Eq, Structural)]
pub struct OracleGuardRails {
    pub price_divergence: PriceDivergenceGuardRails,
    pub validity: ValidityGuardRails,
    /// When set, a liquidation attempt must pass validation first;
    /// when clear, liquidation decisions use the mark price only.
    pub use_for_liquidations: bool,
}

impl OracleGuardRails {
    pub open spec fn wf(self) -> bool {
        &&& self.price_divergence.mark_oracle_divergence_denominator > 0
        &&& self.validity.too_volatile_ratio >= 1
    }
}

/// Outcome of validating one oracle reading.
#[derive(Clone, Copy, Debug, PartialEq, Eq, Structural)]
pub enum OracleStatus {
    Valid,
    Stale,
    TooVolatile,
    Diverged,
}

/// Slots elapsed since the reading was published; a reading from a
/// future slot counts as current.
pub open spec fn slots_delay(oracle_slot: int, current_slot: int) -> int {
    if current_slot >= oracle_slot {
        current_slot - oracle_slot
    } else {
        0
    }
}

/// The reading is older than the guard rails allow.
pub open spec fn is_stale(reading: OracleReading, current_slot: int, rails: OracleGuardRails) -> bool {
    slots_delay(reading.slot as int, current_slot) > rails.validity.slots_before_stable
}

/// The reading is too volatile: its confidence interval exceeds the
/// limit, the price pair cannot form a positive ratio, or the jump
/// from the previous reading exceeds the volatility ratio in either
/// direction.
pub open spec fn is_too_volatile(
    reading: OracleReading,
    last_oracle_price: int,
    rails: OracleGuardRails,
) -> bool {
    let lo = if reading.price <= last_oracle_price {
        reading.price as int
    } else {
        last_oracle_price
    };
    let hi = if reading.price <= last_oracle_price {
        last_oracle_price
    } else {
        reading.price as int
    };
    ||| reading.confidence > rails.validity.confidence_interval_max_size
    ||| lo <= 0
    ||| hi > lo * rails.validity.too_volatile_ratio
}

/// The mark price diverges from the oracle price by more than the
/// allowed fraction of the oracle price.
pub open spec fn is_diverged(reading: OracleReading, mark_price: int, rails: OracleGuardRails) -> bool
    recommends
        reading.price > 0,
{
    let diff = if mark_price >= reading.price {
        mark_price - reading.price
    } else {
        reading.price - mark_price
    };
    diff * rails.price_divergence.mark_oracle_divergence_denominator > reading.price
        * rails.price_divergence.mark_oracle_divergence_numerator
}

/// The verdict on a reading, checking staleness first, then
/// volatility, then divergence.
pub open spec fn spec_validate(
    reading: OracleReading,
    current_slot: int,
    last_oracle_price: int,
    mark_price: int,
    rails: OracleGuardRails,
) -> OracleStatus {
    if is_stale(reading, current_slot, rails) {
        OracleStatus::Stale
    } else if is_too_volatile(reading, last_oracle_price, rails) {
        OracleStatus::TooVolatile
    } else if is_diverged(reading, mark_price, rails) {
        OracleStatus::Diverged
    } else {
        OracleStatus::Valid
    }
}

/// A product in the volatility or divergence check does not fit in
/// `u128`.  The checks short-circuit in validation order, so only
/// products the validation actually reaches count.
pub open spec fn validate_overflows(
    reading: OracleReading,
    current_slot: int,
    last_oracle_price: int,
    mark_price: int,
    rails: OracleGuardRails,
) -> bool {
    if is_stale(reading, current_slot, rails) {
        false
    } else {
        let lo = if reading.price <= last_oracle_price {
            reading.price as int
        } else {
            last_oracle_price
        };
        let hi = if reading.price <= last_oracle_price {
            last_oracle_price
        } else {
            reading.price as int
        };
        if reading.confidence > rails.validity.confidence_interval_max_size || lo <= 0 {
            false
        } else if lo * rails.validity.too_volatile_ratio > u128::MAX {
            true
        } else if hi > lo * rails.validity.too_volatile_ratio {
            false
        } else {
            let diff = if mark_price >= reading.price {
                mark_price - reading.price
            } else {
                reading.price - mark_price
            };
            ||| diff * rails.price_divergence.mark_oracle_divergence_denominator > u128::MAX
            ||| reading.price * rails.price_divergence.mark_oracle_divergence_numerator
                > u128::MAX
        }
    }
}

/// Validate an oracle reading against the guard rails: reject it as
/// stale, too volatile, or diverged from the mark price, in that
/// order of checks; otherwise it is fit for use.
pub fn validate(
    reading: &OracleReading,
    current_slot: u64,
    last_oracle_price: i128,
    mark_price: u128,
    rails: &OracleGuardRails,
) -> (r: Result<OracleStatus, Errors>)
    requires
        rails.wf(),
        mark_price <= i128::MAX,
    ensures
        validate_overflows(
            *reading,
            current_slot as int,
            last_oracle_price as int,
            mark_price as int,
            *rails,
        ) ==> r == Err::<OracleStatus, Errors>(Errors::MathError),
        !validate_overflows(
            *reading,
            current_slot as int,
            last_oracle_price as int,
            mark_price as int,
            *rails,
        ) ==> r == Ok::<OracleStatus, Errors>(
            spec_validate(
                *reading,
                current_slot as int,
                last_oracle_price as int,
                mark_price as int,
                *rails,
            ),
        ),
{
    // Staleness.
    let delay: u64 = if current_slot >= reading.slot {
        current_slot - reading.slot
    } else {
        0
    };
    if delay > rails.validity.slots_before_stable {
        return Ok(OracleStatus::Stale);
    }
    // Volatility: confidence interval, then price-to-price ratio.
    if reading.confidence > rails.validity.confidence_interval_max_size {
        return Ok(OracleStatus::TooVolatile);
    }
    let (lo, hi): (i128, i128) = if reading.price <= last_oracle_price {
        (reading.price, last_oracle_price)
    } else {
        (last_oracle_price, reading.price)
    };
    if lo <= 0 {
        return Ok(OracleStatus::TooVolatile);
    }
    let bound = match (lo as u128).checked_mul(rails.validity.too_volatile_ratio) {
        Some(v) => v,
        None => {
            return Err(Errors::MathError);
        },
    };
    if (hi as u128) > bound {
        return Ok(OracleStatus::TooVolatile);
    }
    // Divergence from the mark price.  Here `reading.price > 0`.
    let price_u = reading.price as u128;
    let diff: u128 = if mark_price >= price_u {
        mark_price - price_u
    } else {
        price_u - mark_price
    };
    let lhs = match diff.checked_mul(rails.price_divergence.mark_oracle_divergence_denominator) {
        Some(v) => v,
        None => {
            return Err(Errors::MathError);
        },
    };
    let rhs = match price_u.checked_mul(rails.price_divergence.mark_oracle_divergence_numerator) {
        Some(v) => v,
        None => {
            return Err(Errors::MathError);
        },
    };
    if lhs > rhs {
        Ok(OracleStatus::Diverged)
    } else {
        Ok(OracleStatus::Valid)
    }
}

} // verus!
