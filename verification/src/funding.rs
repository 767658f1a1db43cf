//! Funding-rate settlement.
//!
//! The engine computes the per-period funding rate from the spread
//! between the mark TWAP and the oracle TWAP.  It only computes the
//! rate; the external position controller applies the resulting
//! payment to open positions.  Settlement runs at most once per
//! funding period: within a period it is a no-op, not an error.

use vstd::prelude::*;

use crate::amm::weighted_average;
use crate::errors::Errors;
use crate::market::AMM;
use crate::math::{add_signed_u128, div_to_zero_i128, tdiv, FUNDING_RATE_NORMALIZER};

verus! {

/// Settlement is due once a full funding period has elapsed since the
/// last one.
pub open spec fn funding_due(amm: AMM, now: int) -> bool {
    now - amm.last_funding_rate_ts >= amm.funding_period
}

/// The funding rate produced by a settlement at time `now`: the
/// mark/oracle TWAP spread divided by the period normalizer, rounding
/// toward zero.
pub open spec fn funding_rate_of(amm: AMM, oracle_price: int, now: int) -> int {
    tdiv(
        amm.last_mark_price_twap - amm.new_oracle_twap(oracle_price, now),
        FUNDING_RATE_NORMALIZER as int,
    )
}

/// Some intermediate value of a due settlement leaves its machine
/// range: the oracle TWAP blend, the mark TWAP as a signed spread
/// operand, or one of the cumulative funding accumulators.
pub open spec fn funding_overflows(amm: AMM, oracle_price: int, now: int) -> bool {
    ||| amm.oracle_twap_overflows(oracle_price, now)
    ||| amm.last_mark_price_twap > i128::MAX
    ||| !(0 <= amm.cumulative_funding_rate_long + funding_rate_of(amm, oracle_price, now)
        <= u128::MAX)
    ||| !(0 <= amm.cumulative_funding_rate_short + funding_rate_of(amm, oracle_price, now)
        <= u128::MAX)
}

/// The pool after a due settlement at time `now`: the oracle TWAP is
/// refreshed with the given reading, both cumulative funding
/// accumulators take the same signed rate, and the settlement
/// timestamp advances to `now`.
pub open spec fn settled(amm: AMM, oracle_price: int, now: int) -> AMM {
    let twap = amm.new_oracle_twap(oracle_price, now);
    let rate = funding_rate_of(amm, oracle_price, now);
    AMM {
        cumulative_funding_rate_long: (amm.cumulative_funding_rate_long + rate) as u128,
        cumulative_funding_rate_short: (amm.cumulative_funding_rate_short + rate) as u128,
        last_funding_rate: rate as i128,
        last_funding_rate_ts: now as i64,
        last_oracle_price_twap: twap as i128,
        last_oracle_price_twap_ts: now as i64,
        last_oracle_price: oracle_price as i128,
        ..amm
    }
}

/// Settle funding for the pool at time `now` against the given oracle
/// reading and return the signed funding-rate delta for the external
/// position controller to apply.
///
/// Within a funding period the call is a no-op returning a zero
/// delta, so settlement is idempotent per period.  A due settlement
/// refreshes the oracle TWAP, adjusts both cumulative funding
/// accumulators by the same signed rate, and advances the settlement
/// timestamp; it is applied all-or-nothing.
pub fn settle_funding(amm: &mut AMM, oracle_price: i128, now: i64) -> (r: Result<i128, Errors>)
    requires
        old(amm).wf(),
        oracle_price >= 0,
        now >= old(amm).last_funding_rate_ts,
        now >= old(amm).last_oracle_price_twap_ts,
    ensures
        !funding_due(*old(amm), now as int) ==> r == Ok::<i128, Errors>(0) && *final(amm) == *old(
            amm,
        ),
        funding_due(*old(amm), now as int) && funding_overflows(
            *old(amm),
            oracle_price as int,
            now as int,
        ) ==> r == Err::<i128, Errors>(Errors::MathError) && *final(amm) == *old(amm),
        funding_due(*old(amm), now as int) && !funding_overflows(
            *old(amm),
            oracle_price as int,
            now as int,
        ) ==> r == Ok::<i128, Errors>(
            funding_rate_of(*old(amm), oracle_price as int, now as int) as i128,
        ) && *final(amm) == settled(*old(amm), oracle_price as int, now as int),
        final(amm).wf(),
{
    let since_settle: i64 = now - amm.last_funding_rate_ts;
    if since_settle < amm.funding_period {
        return Ok(0);
    }
    // Refresh the oracle TWAP (computed first; nothing is committed
    // until every step has succeeded, so the update is all-or-nothing).
    let elapsed: i64 = now - amm.last_oracle_price_twap_ts;
    let w_sample: u128 = if elapsed < 1 {
        1
    } else {
        elapsed as u128
    };
    let remainder: i64 = amm.funding_period - (if elapsed < 1 {
        1
    } else {
        elapsed
    });
    let w_prev: u128 = if remainder < 1 {
        1
    } else {
        remainder as u128
    };
    let twap_u = match weighted_average(
        amm.last_oracle_price_twap as u128,
        oracle_price as u128,
        w_sample,
        w_prev,
    ) {
        Ok(v) => v,
        Err(e) => {
            return Err(e);
        },
    };
    let new_oracle_twap = twap_u as i128;
    // Funding rate from the TWAP spread.
    if amm.last_mark_price_twap > (i128::MAX as u128) {
        return Err(Errors::MathError);
    }
    let spread: i128 = (amm.last_mark_price_twap as i128) - new_oracle_twap;
    let rate: i128 = div_to_zero_i128(spread, FUNDING_RATE_NORMALIZER);
    // Both sides accumulate the same signed rate.
    let new_long = match add_signed_u128(amm.cumulative_funding_rate_long, rate) {
        Ok(v) => v,
        Err(e) => {
            return Err(e);
        },
    };
    let new_short = match add_signed_u128(amm.cumulative_funding_rate_short, rate) {
        Ok(v) => v,
        Err(e) => {
            return Err(e);
        },
    };
    amm.cumulative_funding_rate_long = new_long;
    amm.cumulative_funding_rate_short = new_short;
    amm.last_funding_rate = rate;
    amm.last_funding_rate_ts = now;
    amm.last_oracle_price_twap = new_oracle_twap;
    amm.last_oracle_price_twap_ts = now;
    amm.last_oracle_price = oracle_price;
    Ok(rate)
}

/// Funding settlement is idempotent within one funding period: a due
/// settlement performed at time `now` leaves the pool with its
/// settlement timestamp at `now`, so no further settlement is due at
/// the same timestamp and, by `settle_funding`'s contract, a second
/// call with the same arguments changes nothing and reports a zero
/// delta.
pub proof fn lemma_funding_settlement_idempotent(amm: AMM, oracle_price: int, now: i64)
    requires
        amm.funding_period > 0,
    ensures
        !funding_due(settled(amm, oracle_price, now as int), now as int),
{
}

} // verus!
