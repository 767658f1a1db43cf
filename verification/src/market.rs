//! Per-market state: the virtual constant-product pool and the market
//! record that embeds it, plus the fixed-capacity table of markets.
//!
//! Account identities (the oracle account, for example) are carried as
//! plain numeric identifiers; deriving and resolving real account
//! addresses is the collaborator's concern.

use vstd::prelude::*;

use crate::errors::Errors;

verus! {

/// The markets table holds this many fixed-size records; the
/// collaborator relies on the capacity never changing.
pub const MARKET_CAPACITY: usize = 64;

/// Which oracle feeds a market's external price.
#[derive(Clone, Copy, Debug, PartialEq, Eq, Structural)]
pub enum OracleSource {
    Pyth,
    SwitchBoard,
}

/// The side of a trade or position.
#[derive(Clone, Copy, Debug, PartialEq, Eq, Structural)]
pub enum PositionDirection {
    Long,
    Short,
}

/// Virtual constant-product pool embedded in each market.
///
/// Prices derived from the pool are scaled by
/// `crate::math::MARK_PRICE_PRECISION`.  The reserve product
/// `base_asset_reserve * quote_asset_reserve` is preserved by swaps up
/// to the rounding bound stated on [`AMM::quote_swap`]; only explicit
/// repeg or curve updates may change it otherwise.
#[derive(Clone, Copy, Debug, PartialEq, Eq)]
pub struct AMM {
    pub base_asset_reserve: u128,
    pub quote_asset_reserve: u128,
    /// Pool depth parameter: the reserve product equals `sqrt_k`
    /// squared up to rounding; changed only by explicit repeg or
    /// curve-update operations.
    pub sqrt_k: u128,
    pub cumulative_repeg_rebate_long: u128,
    pub cumulative_repeg_rebate_short: u128,
    pub cumulative_funding_rate_long: u128,
    pub cumulative_funding_rate_short: u128,
    pub last_funding_rate: i128,
    pub last_funding_rate_ts: i64,
    pub funding_period: i64,
    /// Scales the quote reserve into real quote-asset units.
    pub peg_multiplier: u128,
    pub total_fee: u128,
    pub total_fee_minus_distributions: u128,
    pub total_fee_withdrawn: u128,
    pub minimum_base_asset_trade_size: u128,
    pub minimum_quote_asset_trade_size: u128,
    pub last_mark_price_twap: u128,
    pub last_mark_price_twap_ts: i64,
    pub last_oracle_price_twap_ts: i64,
    pub last_oracle_price_twap: i128,
    /// Identifier of the oracle account supplying external prices.
    pub oracle: u64,
    pub last_oracle_price: i128,
    /// Base spread in basis points.
    pub base_spread: u16,
    pub oracle_source: OracleSource,
}

impl AMM {
    /// Well-formedness: live reserves, a positive funding period,
    /// non-negative price and time fields, and the fee accounting
    /// ordering `total_fee >= total_fee_minus_distributions` and
    /// `total_fee_withdrawn <= total_fee`.
    pub open spec fn wf(self) -> bool {
        &&& self.base_asset_reserve > 0
        &&& self.quote_asset_reserve > 0
        &&& self.funding_period > 0
        &&& self.last_funding_rate_ts >= 0
        &&& self.last_mark_price_twap_ts >= 0
        &&& self.last_oracle_price_twap_ts >= 0
        &&& self.last_oracle_price_twap >= 0
        &&& self.last_oracle_price >= 0
        &&& self.total_fee_minus_distributions <= self.total_fee
        &&& self.total_fee_withdrawn <= self.total_fee
    }

    /// The constant-product invariant quantity.
    pub open spec fn reserve_product(self) -> int {
        self.base_asset_reserve * self.quote_asset_reserve
    }

    /// A zeroed pool, as a freshly allocated market slot holds it.
    pub fn zeroed() -> (r: AMM)
        ensures
            r == (AMM {
                base_asset_reserve: 0,
                quote_asset_reserve: 0,
                sqrt_k: 0,
                cumulative_repeg_rebate_long: 0,
                cumulative_repeg_rebate_short: 0,
                cumulative_funding_rate_long: 0,
                cumulative_funding_rate_short: 0,
                last_funding_rate: 0,
                last_funding_rate_ts: 0,
                funding_period: 0,
                peg_multiplier: 0,
                total_fee: 0,
                total_fee_minus_distributions: 0,
                total_fee_withdrawn: 0,
                minimum_base_asset_trade_size: 0,
                minimum_quote_asset_trade_size: 0,
                last_mark_price_twap: 0,
                last_mark_price_twap_ts: 0,
                last_oracle_price_twap_ts: 0,
                last_oracle_price_twap: 0,
                oracle: 0,
                last_oracle_price: 0,
                base_spread: 0,
                oracle_source: OracleSource::Pyth,
            }),
    {
        AMM {
            base_asset_reserve: 0,
            quote_asset_reserve: 0,
            sqrt_k: 0,
            cumulative_repeg_rebate_long: 0,
            cumulative_repeg_rebate_short: 0,
            cumulative_funding_rate_long: 0,
            cumulative_funding_rate_short: 0,
            last_funding_rate: 0,
            last_funding_rate_ts: 0,
            funding_period: 0,
            peg_multiplier: 0,
            total_fee: 0,
            total_fee_minus_distributions: 0,
            total_fee_withdrawn: 0,
            minimum_base_asset_trade_size: 0,
            minimum_quote_asset_trade_size: 0,
            last_mark_price_twap: 0,
            last_mark_price_twap_ts: 0,
            last_oracle_price_twap_ts: 0,
            last_oracle_price_twap: 0,
            oracle: 0,
            last_oracle_price: 0,
            base_spread: 0,
            oracle_source: OracleSource::Pyth,
        }
    }
}

/// One tradable instrument.
#[derive(Clone, Copy, Debug, PartialEq, Eq)]
pub struct Market {
    /// Aggregate long exposure; never negative.
    pub base_asset_amount_long: i128,
    /// Aggregate short exposure; never positive.
    pub base_asset_amount_short: i128,
    /// Net market exposure: always the sum of the long and short
    /// aggregates.
    pub base_asset_amount: i128,
    /// Number of holders with an open position.
    pub open_interest: u128,
    pub amm: AMM,
    /// Margin required to open a position, in basis points.
    pub margin_ratio_initial: u32,
    /// Below this ratio an open position may be partially liquidated.
    pub margin_ratio_partial: u32,
    /// Below this ratio an open position may be fully liquidated.
    pub margin_ratio_maintenance: u32,
    /// Lifecycle gate: a market is usable only after explicit
    /// initialization.
    pub initialized: bool,
}

impl Market {
    /// Net exposure always equals long plus short exposure.
    pub open spec fn exposure_balanced(self) -> bool {
        self.base_asset_amount == self.base_asset_amount_long + self.base_asset_amount_short
    }

    /// The three margin thresholds are strictly ordered: a position
    /// must clear the initial bar to open, falls into the partial
    /// band below `margin_ratio_partial`, and into the full band
    /// below `margin_ratio_maintenance`.
    pub open spec fn margin_ratios_ordered(self) -> bool {
        self.margin_ratio_initial > self.margin_ratio_partial > self.margin_ratio_maintenance > 0
    }

    /// Well-formedness of a market record.  An uninitialized (zeroed)
    /// slot only keeps the exposure bookkeeping consistent; an
    /// initialized market also has ordered margin thresholds and a
    /// well-formed pool.
    pub open spec fn wf(self) -> bool {
        &&& self.exposure_balanced()
        &&& self.base_asset_amount_long >= 0
        &&& self.base_asset_amount_short <= 0
        &&& self.initialized ==> self.margin_ratios_ordered() && self.amm.wf()
    }

    /// The market's exposure bookkeeping after a trade of `delta`
    /// base units: a long trade raises the long aggregate and the net
    /// exposure, a short trade lowers the short aggregate and the net
    /// exposure.
    pub open spec fn traded_exposure(self, direction: PositionDirection, delta: int) -> Market {
        match direction {
            PositionDirection::Long => Market {
                base_asset_amount_long: (self.base_asset_amount_long + delta) as i128,
                base_asset_amount: (self.base_asset_amount + delta) as i128,
                ..self
            },
            PositionDirection::Short => Market {
                base_asset_amount_short: (self.base_asset_amount_short - delta) as i128,
                base_asset_amount: (self.base_asset_amount - delta) as i128,
                ..self
            },
        }
    }

    /// The exposure bookkeeping of a trade leaves the `i128` range.
    pub open spec fn exposure_overflows(self, direction: PositionDirection, delta: int) -> bool {
        ||| delta > i128::MAX
        ||| (match direction {
            PositionDirection::Long => self.base_asset_amount_long + delta > i128::MAX
                || self.base_asset_amount + delta > i128::MAX,
            PositionDirection::Short => self.base_asset_amount_short - delta < i128::MIN
                || self.base_asset_amount - delta < i128::MIN,
        })
    }

    /// Execute a trade against the market: swap `base_asset_swap_amount`
    /// base units through the pool and keep the exposure aggregates in
    /// step, all-or-nothing.  Returns the trade's quote proceeds or
    /// cost.
    ///
    /// The exposure identity `base_asset_amount ==
    /// base_asset_amount_long + base_asset_amount_short` holds after
    /// the call whether it succeeds or fails.
    pub fn apply_trade(&mut self, direction: PositionDirection, base_asset_swap_amount: u128) -> (r:
        Result<u128, Errors>)
        requires
            old(self).wf(),
            old(self).initialized,
        ensures
            old(self).exposure_overflows(direction, base_asset_swap_amount as int) || old(
                self,
            ).amm.swap_rejected(base_asset_swap_amount as int, direction) ==> r == Err::<
                u128,
                Errors,
            >(Errors::MathError) && *final(self) == *old(self),
            !(old(self).exposure_overflows(direction, base_asset_swap_amount as int) || old(
                self,
            ).amm.swap_rejected(base_asset_swap_amount as int, direction)) ==> {
                &&& r == Ok::<u128, Errors>(
                    old(self).amm.swap_quote_delta(base_asset_swap_amount as int, direction)
                        as u128,
                )
                &&& *final(self) == (Market {
                    amm: AMM {
                        base_asset_reserve: old(self).amm.swap_new_base(
                            base_asset_swap_amount as int,
                            direction,
                        ) as u128,
                        quote_asset_reserve: old(self).amm.swap_new_quote(
                            base_asset_swap_amount as int,
                            direction,
                        ) as u128,
                        ..old(self).amm
                    },
                    ..old(self).traded_exposure(direction, base_asset_swap_amount as int)
                })
            },
            final(self).wf(),
            final(self).exposure_balanced(),
    {
        if base_asset_swap_amount > (i128::MAX as u128) {
            return Err(Errors::MathError);
        }
        let delta = base_asset_swap_amount as i128;
        match direction {
            PositionDirection::Long => {
                let new_long = match self.base_asset_amount_long.checked_add(delta) {
                    Some(v) => v,
                    None => {
                        return Err(Errors::MathError);
                    },
                };
                let new_net = match self.base_asset_amount.checked_add(delta) {
                    Some(v) => v,
                    None => {
                        return Err(Errors::MathError);
                    },
                };
                match self.amm.quote_swap(base_asset_swap_amount, direction) {
                    Ok(quote_delta) => {
                        self.base_asset_amount_long = new_long;
                        self.base_asset_amount = new_net;
                        Ok(quote_delta)
                    },
                    Err(e) => Err(e),
                }
            },
            PositionDirection::Short => {
                let new_short = match self.base_asset_amount_short.checked_sub(delta) {
                    Some(v) => v,
                    None => {
                        return Err(Errors::MathError);
                    },
                };
                let new_net = match self.base_asset_amount.checked_sub(delta) {
                    Some(v) => v,
                    None => {
                        return Err(Errors::MathError);
                    },
                };
                match self.amm.quote_swap(base_asset_swap_amount, direction) {
                    Ok(quote_delta) => {
                        self.base_asset_amount_short = new_short;
                        self.base_asset_amount = new_net;
                        Ok(quote_delta)
                    },
                    Err(e) => Err(e),
                }
            },
        }
    }

    /// The zeroed market record freshly allocated slots hold.
    pub open spec fn spec_zeroed() -> Market {
        Market {
            base_asset_amount_long: 0i128,
            base_asset_amount_short: 0i128,
            base_asset_amount: 0i128,
            open_interest: 0u128,
            amm: AMM {
                base_asset_reserve: 0u128,
                quote_asset_reserve: 0u128,
                sqrt_k: 0u128,
                cumulative_repeg_rebate_long: 0u128,
                cumulative_repeg_rebate_short: 0u128,
                cumulative_funding_rate_long: 0u128,
                cumulative_funding_rate_short: 0u128,
                last_funding_rate: 0i128,
                last_funding_rate_ts: 0i64,
                funding_period: 0i64,
                peg_multiplier: 0u128,
                total_fee: 0u128,
                total_fee_minus_distributions: 0u128,
                total_fee_withdrawn: 0u128,
                minimum_base_asset_trade_size: 0u128,
                minimum_quote_asset_trade_size: 0u128,
                last_mark_price_twap: 0u128,
                last_mark_price_twap_ts: 0i64,
                last_oracle_price_twap_ts: 0i64,
                last_oracle_price_twap: 0i128,
                oracle: 0u64,
                last_oracle_price: 0i128,
                base_spread: 0u16,
                oracle_source: OracleSource::Pyth,
            },
            margin_ratio_initial: 0u32,
            margin_ratio_partial: 0u32,
            margin_ratio_maintenance: 0u32,
            initialized: false,
        }
    }

    /// A zeroed market slot, not yet initialized.
    pub fn zeroed() -> (r: Market)
        ensures
            r == Market::spec_zeroed(),
            r.wf(),
            !r.initialized,
    {
        Market {
            base_asset_amount_long: 0,
            base_asset_amount_short: 0,
            base_asset_amount: 0,
            open_interest: 0,
            amm: AMM::zeroed(),
            margin_ratio_initial: 0,
            margin_ratio_partial: 0,
            margin_ratio_maintenance: 0,
            initialized: false,
        }
    }
}

/// Fixed-capacity table of market records: always exactly
/// `MARKET_CAPACITY` fixed-size slots, with no internal fragmentation.
/// Slots are zeroed on allocation, initialized individually by an
/// admin action, and never deallocated.
#[derive(Clone, Debug, PartialEq, Eq)]
pub struct Markets {
    pub markets: Vec<Market>,
}

impl Markets {
    /// Well-formedness: exactly `MARKET_CAPACITY` slots, each of them
    /// well-formed.
    pub open spec fn wf(self) -> bool {
        &&& self.markets.len() == MARKET_CAPACITY
        &&& forall|i: int|
            0 <= i < self.markets.len() ==> (#[trigger] self.markets[i]).wf()
    }

    /// A freshly allocated table: every slot zeroed and uninitialized.
    pub fn new() -> (r: Markets)
        ensures
            r.wf(),
            r.markets.len() == MARKET_CAPACITY,
            forall|i: int| 0 <= i < r.markets.len() ==> r.markets[i] == Market::spec_zeroed(),
    {
        let mut markets: Vec<Market> = Vec::new();
        let mut n: usize = 0;
        while n < MARKET_CAPACITY
            invariant
                n == markets.len(),
                n <= MARKET_CAPACITY,
                forall|i: int| 0 <= i < markets.len() ==> markets[i] == Market::spec_zeroed(),
            decreases MARKET_CAPACITY - n,
        {
            markets.push(Market::zeroed());
            n = n + 1;
        }
        Markets { markets }
    }

    /// Read one slot of the table.
    pub fn market_at(&self, index: usize) -> (r: &Market)
        requires
            index < self.markets.len(),
        ensures
            r == self.markets[index as int],
    {
        &self.markets[index]
    }
}

} // verus!
