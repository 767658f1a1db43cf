//! Operations on the virtual constant-product pool: mark price, swap
//! quoting, and time-weighted average price maintenance.

use vstd::arithmetic::div_mod::{
    lemma_div_is_ordered, lemma_div_is_ordered_by_denominator, lemma_div_multiples_vanish,
    lemma_div_nonincreasing, lemma_fundamental_div_mod, lemma_mod_division_less_than_divisor,
};
use vstd::arithmetic::mul::{lemma_mul_inequality, lemma_mul_is_distributive_add};
use vstd::math::max;
use vstd::prelude::*;

use crate::errors::Errors;
use crate::market::{AMM, PositionDirection};
use crate::math::MARK_PRICE_PRECISION;

verus! {

/// Time-weighted blend of a previous average and a new sample,
/// rounding down: `(sample * w_sample + prev * w_prev) / (w_sample +
/// w_prev)`.
pub open spec fn twap_blend(prev: int, sample: int, w_sample: int, w_prev: int) -> int
    recommends
        w_sample + w_prev > 0,
{
    (sample * w_sample + prev * w_prev) / (w_sample + w_prev)
}

/// Weighted average of two non-negative quantities, rounding down.
/// The numerator is formed at full `u128` width; a numerator beyond it
/// fails loudly.  The result never leaves the interval spanned by the
/// two inputs' maximum.
pub(crate) fn weighted_average(prev: u128, sample: u128, w_sample: u128, w_prev: u128) -> (r: Result<
    u128,
    Errors,
>)
    requires
        w_sample + w_prev > 0,
        w_sample + w_prev <= u128::MAX,
    ensures
        sample * w_sample + prev * w_prev <= u128::MAX ==> r == Ok::<u128, Errors>(
            twap_blend(prev as int, sample as int, w_sample as int, w_prev as int) as u128,
        ),
        sample * w_sample + prev * w_prev > u128::MAX ==> r == Err::<u128, Errors>(
            Errors::MathError,
        ),
        r is Ok ==> r->Ok_0 <= max(prev as int, sample as int),
{
    let a = match sample.checked_mul(w_sample) {
        Some(v) => v,
        None => {
            return Err(Errors::MathError);
        },
    };
    let b = match prev.checked_mul(w_prev) {
        Some(v) => v,
        None => {
            return Err(Errors::MathError);
        },
    };
    let num = match a.checked_add(b) {
        Some(v) => v,
        None => {
            return Err(Errors::MathError);
        },
    };
    let denom = w_sample + w_prev;
    let out = num / denom;
    proof {
        let m = max(prev as int, sample as int);
        lemma_mul_inequality(sample as int, m, w_sample as int);
        lemma_mul_inequality(prev as int, m, w_prev as int);
        lemma_mul_is_distributive_add(m, w_sample as int, w_prev as int);
        lemma_div_is_ordered(num as int, m * (denom as int), denom as int);
        lemma_div_multiples_vanish(m, denom as int);
        assert(m * (denom as int) == (denom as int) * m);
    }
    Ok(out)
}

impl AMM {
    /// The full-precision mark-price numerator:
    /// `quote_asset_reserve * peg_multiplier * MARK_PRICE_PRECISION`.
    pub open spec fn mark_price_full(self) -> int {
        self.quote_asset_reserve * self.peg_multiplier * MARK_PRICE_PRECISION
    }

    /// The mark price implied by the pool, scaled by
    /// `MARK_PRICE_PRECISION` and rounded down.
    pub open spec fn spec_mark_price(self) -> int
        recommends
            self.base_asset_reserve > 0,
    {
        self.mark_price_full() / (self.base_asset_reserve as int)
    }

    /// Current mark price: `quote_asset_reserve * peg_multiplier /
    /// base_asset_reserve`, scaled by `MARK_PRICE_PRECISION`.  A
    /// product beyond `u128` fails loudly.
    pub fn get_mark_price(&self) -> (r: Result<u128, Errors>)
        requires
            self.base_asset_reserve > 0,
        ensures
            self.mark_price_full() <= u128::MAX ==> r == Ok::<u128, Errors>(
                self.spec_mark_price() as u128,
            ),
            self.mark_price_full() > u128::MAX ==> r == Err::<u128, Errors>(Errors::MathError),
    {
        let scaled_quote = match self.quote_asset_reserve.checked_mul(self.peg_multiplier) {
            Some(v) => v,
            None => {
                proof {
                    assert(self.quote_asset_reserve * self.peg_multiplier * MARK_PRICE_PRECISION
                        >= self.quote_asset_reserve * self.peg_multiplier) by (nonlinear_arith);
                }
                return Err(Errors::MathError);
            },
        };
        let full = match scaled_quote.checked_mul(MARK_PRICE_PRECISION) {
            Some(v) => v,
            None => {
                return Err(Errors::MathError);
            },
        };
        proof {
            lemma_div_nonincreasing(full as int, self.base_asset_reserve as int);
        }
        Ok(full / self.base_asset_reserve)
    }

    /// The base reserve after a swap of `delta` base units in the
    /// given direction: going long drains the base reserve, going
    /// short fills it.
    pub open spec fn swap_new_base(self, delta: int, direction: PositionDirection) -> int {
        match direction {
            PositionDirection::Long => self.base_asset_reserve - delta,
            PositionDirection::Short => self.base_asset_reserve + delta,
        }
    }

    /// The quote reserve after a swap: the reserve product divided by
    /// the new base reserve, rounding down.
    pub open spec fn swap_new_quote(self, delta: int, direction: PositionDirection) -> int
        recommends
            self.swap_new_base(delta, direction) > 0,
    {
        self.reserve_product() / self.swap_new_base(delta, direction)
    }

    /// A swap is rejected when the reserve product cannot be formed at
    /// `u128` width, or when it would drive either reserve to zero or
    /// beyond the representable range.
    pub open spec fn swap_rejected(self, delta: int, direction: PositionDirection) -> bool {
        if self.reserve_product() > u128::MAX {
            true
        } else {
            let nb = self.swap_new_base(delta, direction);
            if nb <= 0 || nb > u128::MAX {
                true
            } else {
                self.reserve_product() / nb == 0
            }
        }
    }

    /// The quote proceeds (long) or cost (short) of a swap: the
    /// absolute change of the quote reserve.
    pub open spec fn swap_quote_delta(self, delta: int, direction: PositionDirection) -> int
        recommends
            self.swap_new_base(delta, direction) > 0,
    {
        match direction {
            PositionDirection::Long => self.swap_new_quote(delta, direction)
                - self.quote_asset_reserve,
            PositionDirection::Short => self.quote_asset_reserve - self.swap_new_quote(
                delta,
                direction,
            ),
        }
    }

    /// Swap `base_asset_swap_amount` base units against the pool and
    /// return the quote proceeds or cost.
    ///
    /// The constant-product relation is preserved up to the rounding
    /// error of one division: the reserve product never grows, and it
    /// shrinks by strictly less than the new base reserve.  A trade
    /// that would deplete either reserve, or overflow the product, is
    /// rejected with the pool unchanged.
    pub fn quote_swap(&mut self, base_asset_swap_amount: u128, direction: PositionDirection) -> (r:
        Result<u128, Errors>)
        requires
            old(self).wf(),
        ensures
            old(self).swap_rejected(base_asset_swap_amount as int, direction) ==> r == Err::<
                u128,
                Errors,
            >(Errors::MathError) && *final(self) == *old(self),
            !old(self).swap_rejected(base_asset_swap_amount as int, direction) ==> {
                &&& r == Ok::<u128, Errors>(
                    old(self).swap_quote_delta(base_asset_swap_amount as int, direction) as u128,
                )
                &&& *final(self) == (AMM {
                    base_asset_reserve: old(self).swap_new_base(
                        base_asset_swap_amount as int,
                        direction,
                    ) as u128,
                    quote_asset_reserve: old(self).swap_new_quote(
                        base_asset_swap_amount as int,
                        direction,
                    ) as u128,
                    ..*old(self)
                })
                &&& final(self).reserve_product() <= old(self).reserve_product()
                &&& old(self).reserve_product() - final(self).reserve_product()
                    < final(self).base_asset_reserve as int
            },
            final(self).wf(),
    {
        let ghost pre = *self;
        let k = match self.base_asset_reserve.checked_mul(self.quote_asset_reserve) {
            Some(v) => v,
            None => {
                return Err(Errors::MathError);
            },
        };
        let new_base = match direction {
            PositionDirection::Long => {
                if base_asset_swap_amount >= self.base_asset_reserve {
                    return Err(Errors::MathError);
                }
                self.base_asset_reserve - base_asset_swap_amount
            },
            PositionDirection::Short => {
                match self.base_asset_reserve.checked_add(base_asset_swap_amount) {
                    Some(v) => v,
                    None => {
                        return Err(Errors::MathError);
                    },
                }
            },
        };
        let new_quote = k / new_base;
        if new_quote == 0 {
            proof {
                // Going long shrinks the base reserve, so the quote
                // reserve cannot round down to zero.
                if direction == PositionDirection::Long {
                    lemma_div_is_ordered_by_denominator(
                        k as int,
                        new_base as int,
                        pre.base_asset_reserve as int,
                    );
                    lemma_div_multiples_vanish(
                        pre.quote_asset_reserve as int,
                        pre.base_asset_reserve as int,
                    );
                    assert(pre.reserve_product() == pre.base_asset_reserve
                        * pre.quote_asset_reserve);
                }
            }
            return Err(Errors::MathError);
        }
        proof {
            lemma_fundamental_div_mod(k as int, new_base as int);
            lemma_mod_division_less_than_divisor(k as int, new_base as int);
            assert((new_base as int) * (new_quote as int) == (new_quote as int)
                * (new_base as int));
            match direction {
                PositionDirection::Long => {
                    lemma_div_is_ordered_by_denominator(
                        k as int,
                        new_base as int,
                        pre.base_asset_reserve as int,
                    );
                    lemma_div_multiples_vanish(
                        pre.quote_asset_reserve as int,
                        pre.base_asset_reserve as int,
                    );
                },
                PositionDirection::Short => {
                    lemma_div_is_ordered_by_denominator(
                        k as int,
                        pre.base_asset_reserve as int,
                        new_base as int,
                    );
                    lemma_div_multiples_vanish(
                        pre.quote_asset_reserve as int,
                        pre.base_asset_reserve as int,
                    );
                },
            }
        }
        let quote_delta = match direction {
            PositionDirection::Long => new_quote - self.quote_asset_reserve,
            PositionDirection::Short => self.quote_asset_reserve - new_quote,
        };
        self.base_asset_reserve = new_base;
        self.quote_asset_reserve = new_quote;
        Ok(quote_delta)
    }

    /// Weight of a new mark-price sample: the time elapsed since the
    /// last mark TWAP update, at least one unit.
    pub open spec fn mark_since(self, now: int) -> int {
        max(1, now - self.last_mark_price_twap_ts)
    }

    /// Weight of the previous mark TWAP: the remainder of the funding
    /// period, at least one unit.  This caps the lookback, so a single
    /// stale sample cannot dominate the average.
    pub open spec fn mark_from(self, now: int) -> int {
        max(1, self.funding_period - self.mark_since(now))
    }

    /// The mark TWAP after blending in a sample at time `now`.
    pub open spec fn new_mark_twap(self, price: int, now: int) -> int {
        twap_blend(
            self.last_mark_price_twap as int,
            price,
            self.mark_since(now),
            self.mark_from(now),
        )
    }

    /// The blend's numerator does not fit in `u128`.
    pub open spec fn mark_twap_overflows(self, price: int, now: int) -> bool {
        price * self.mark_since(now) + self.last_mark_price_twap * self.mark_from(now)
            > u128::MAX
    }

    /// Blend a new mark-price sample into the mark TWAP, weighting the
    /// sample by the time elapsed since the last update and the old
    /// average by the rest of the funding period.  Timestamps never
    /// decrease.
    pub fn update_mark_price_twap(&mut self, price: u128, now: i64) -> (r: Result<u128, Errors>)
        requires
            old(self).wf(),
            now >= old(self).last_mark_price_twap_ts,
        ensures
            old(self).mark_twap_overflows(price as int, now as int) ==> r == Err::<u128, Errors>(
                Errors::MathError,
            ) && *final(self) == *old(self),
            !old(self).mark_twap_overflows(price as int, now as int) ==> {
                &&& r == Ok::<u128, Errors>(
                    old(self).new_mark_twap(price as int, now as int) as u128,
                )
                &&& *final(self) == (AMM {
                    last_mark_price_twap: old(self).new_mark_twap(
                        price as int,
                        now as int,
                    ) as u128,
                    last_mark_price_twap_ts: now,
                    ..*old(self)
                })
            },
            final(self).wf(),
    {
        let elapsed: i64 = now - self.last_mark_price_twap_ts;
        let w_sample: u128 = if elapsed < 1 {
            1
        } else {
            elapsed as u128
        };
        let remainder: i64 = self.funding_period - (if elapsed < 1 {
            1
        } else {
            elapsed
        });
        let w_prev: u128 = if remainder < 1 {
            1
        } else {
            remainder as u128
        };
        match weighted_average(self.last_mark_price_twap, price, w_sample, w_prev) {
            Ok(v) => {
                self.last_mark_price_twap = v;
                self.last_mark_price_twap_ts = now;
                Ok(v)
            },
            Err(e) => Err(e),
        }
    }

    /// Weight of a new oracle-price sample, as for the mark TWAP.
    pub open spec fn oracle_since(self, now: int) -> int {
        max(1, now - self.last_oracle_price_twap_ts)
    }

    /// Weight of the previous oracle TWAP, as for the mark TWAP.
    pub open spec fn oracle_from(self, now: int) -> int {
        max(1, self.funding_period - self.oracle_since(now))
    }

    /// The oracle TWAP after blending in a sample at time `now`.
    pub open spec fn new_oracle_twap(self, price: int, now: int) -> int {
        twap_blend(
            self.last_oracle_price_twap as int,
            price,
            self.oracle_since(now),
            self.oracle_from(now),
        )
    }

    /// The blend's numerator does not fit in `u128`.
    pub open spec fn oracle_twap_overflows(self, price: int, now: int) -> bool {
        price * self.oracle_since(now) + self.last_oracle_price_twap * self.oracle_from(now)
            > u128::MAX
    }

    /// Blend a new oracle-price sample into the oracle TWAP and record
    /// the sample as the last observed oracle price.  Negative oracle
    /// readings are rejected by the guard rails before prices reach
    /// the pool, so the sample is required to be non-negative.
    pub fn update_oracle_price_twap(&mut self, price: i128, now: i64) -> (r: Result<i128, Errors>)
        requires
            old(self).wf(),
            price >= 0,
            now >= old(self).last_oracle_price_twap_ts,
        ensures
            old(self).oracle_twap_overflows(price as int, now as int) ==> r == Err::<i128, Errors>(
                Errors::MathError,
            ) && *final(self) == *old(self),
            !old(self).oracle_twap_overflows(price as int, now as int) ==> {
                &&& r == Ok::<i128, Errors>(
                    old(self).new_oracle_twap(price as int, now as int) as i128,
                )
                &&& *final(self) == (AMM {
                    last_oracle_price_twap: old(self).new_oracle_twap(
                        price as int,
                        now as int,
                    ) as i128,
                    last_oracle_price_twap_ts: now,
                    last_oracle_price: price,
                    ..*old(self)
                })
            },
            final(self).wf(),
    {
        let elapsed: i64 = now - self.last_oracle_price_twap_ts;
        let w_sample: u128 = if elapsed < 1 {
            1
        } else {
            elapsed as u128
        };
        let remainder: i64 = self.funding_period - (if elapsed < 1 {
            1
        } else {
            elapsed
        });
        let w_prev: u128 = if remainder < 1 {
            1
        } else {
            remainder as u128
        };
        let prev: u128 = self.last_oracle_price_twap as u128;
        match weighted_average(prev, price as u128, w_sample, w_prev) {
            Ok(v) => {
                let twap = v as i128;
                self.last_oracle_price_twap = twap;
                self.last_oracle_price_twap_ts = now;
                self.last_oracle_price = price;
                Ok(twap)
            },
            Err(e) => Err(e),
        }
    }
}

} // verus!
