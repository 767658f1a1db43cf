//! Tiered fee and discount schedule.
//!
//! The base fee is a fixed ratio of the trade's notional.  A
//! discount-token balance selects the highest qualifying tier, whose
//! ratio reduces the fee; a referral then reduces the remainder again.
//! The two discounts compose multiplicatively — tier first, then
//! referral — so they can never sum past the base fee, and every
//! division rounds down.

use vstd::prelude::*;

use crate::errors::Errors;
use crate::math::{lemma_ratio_le, mul_div_u128};

verus! {

pub const DEFAULT_FEE_NUMERATOR: u128 = 10;

pub const DEFAULT_FEE_DENOMINATOR: u128 = 10_000;

pub const DEFAULT_DISCOUNT_TOKEN_FIRST_TIER_MINIMUM_BALANCE: u64 = 1_000_000_000_000;

pub const DEFAULT_DISCOUNT_TOKEN_FIRST_TIER_DISCOUNT_NUMERATOR: u128 = 20;

pub const DEFAULT_DISCOUNT_TOKEN_FIRST_TIER_DISCOUNT_DENOMINATOR: u128 = 100;

pub const DEFAULT_DISCOUNT_TOKEN_SECOND_TIER_MINIMUM_BALANCE: u64 = 100_000_000_000;

pub const DEFAULT_DISCOUNT_TOKEN_SECOND_TIER_DISCOUNT_NUMERATOR: u128 = 15;

pub const DEFAULT_DISCOUNT_TOKEN_SECOND_TIER_DISCOUNT_DENOMINATOR: u128 = 100;

pub const DEFAULT_DISCOUNT_TOKEN_THIRD_TIER_MINIMUM_BALANCE: u64 = 10_000_000_000;

pub const DEFAULT_DISCOUNT_TOKEN_THIRD_TIER_DISCOUNT_NUMERATOR: u128 = 10;

pub const DEFAULT_DISCOUNT_TOKEN_THIRD_TIER_DISCOUNT_DENOMINATOR: u128 = 100;

pub const DEFAULT_DISCOUNT_TOKEN_FOURTH_TIER_MINIMUM_BALANCE: u64 = 1_000_000_000;

pub const DEFAULT_DISCOUNT_TOKEN_FOURTH_TIER_DISCOUNT_NUMERATOR: u128 = 5;

pub const DEFAULT_DISCOUNT_TOKEN_FOURTH_TIER_DISCOUNT_DENOMINATOR: u128 = 100;

pub const DEFAULT_REFERRER_REWARD_NUMERATOR: u128 = 5;

pub const DEFAULT_REFERRER_REWARD_DENOMINATOR: u128 = 100;

pub const DEFAULT_REFEREE_DISCOUNT_NUMERATOR: u128 = 5;

pub const DEFAULT_REFEREE_DISCOUNT_DENOMINATOR: u128 = 100;

/// One discount tier: holders of at least `minimum_balance` discount
/// tokens have their fee reduced by the tier's ratio.
#[derive(Clone, Copy, Debug, PartialEq, Eq, Structural)]
pub struct DiscountTokenTier {
    pub minimum_balance: u64,
    pub discount_numerator: u128,
    pub discount_denominator: u128,
}

impl DiscountTokenTier {
    /// A tier's ratio is a well-formed fraction of at most one.
    pub open spec fn wf(self) -> bool {
        &&& self.discount_denominator > 0
        &&& self.discount_numerator <= self.discount_denominator
    }
}

/// The four discount tiers, ordered by strictly descending qualifying
/// balance, so they are mutually exclusive and the first qualifying
/// tier is the highest one.
#[derive(Clone, Copy, Debug, PartialEq, Eq, Structural)]
pub struct DiscountTokenTiers {
    pub first_tier: DiscountTokenTier,
    pub second_tier: DiscountTokenTier,
    pub third_tier: DiscountTokenTier,
    pub fourth_tier: DiscountTokenTier,
}

impl DiscountTokenTiers {
    /// Each tier is well formed; qualifying balances descend strictly
    /// and discounts do not increase from the first tier down, so the
    /// highest qualifying tier also carries the highest discount.
    pub open spec fn wf(self) -> bool {
        &&& self.first_tier.wf()
        &&& self.second_tier.wf()
        &&& self.third_tier.wf()
        &&& self.fourth_tier.wf()
        &&& self.first_tier.minimum_balance > self.second_tier.minimum_balance
            > self.third_tier.minimum_balance > self.fourth_tier.minimum_balance
        &&& self.first_tier.discount_numerator * self.second_tier.discount_denominator
            >= self.second_tier.discount_numerator * self.first_tier.discount_denominator
        &&& self.second_tier.discount_numerator * self.third_tier.discount_denominator
            >= self.third_tier.discount_numerator * self.second_tier.discount_denominator
        &&& self.third_tier.discount_numerator * self.fourth_tier.discount_denominator
            >= self.fourth_tier.discount_numerator * self.third_tier.discount_denominator
    }

    /// The highest tier the balance qualifies for, if any.
    pub open spec fn selected_tier(self, balance: int) -> Option<DiscountTokenTier> {
        if balance >= self.first_tier.minimum_balance {
            Some(self.first_tier)
        } else if balance >= self.second_tier.minimum_balance {
            Some(self.second_tier)
        } else if balance >= self.third_tier.minimum_balance {
            Some(self.third_tier)
        } else if balance >= self.fourth_tier.minimum_balance {
            Some(self.fourth_tier)
        } else {
            None
        }
    }
}

/// Referral ratios: the referee's fee discount and the referrer's
/// reward, each a fraction of at most one.
#[derive(Clone, Copy, Debug, PartialEq, Eq, Structural)]
pub struct ReferralDiscount {
    pub referral_reward_numerator: u128,
    pub referral_reward_denominator: u128,
    pub referee_discount_numerator: u128,
    pub referee_discount_denominator: u128,
}

impl ReferralDiscount {
    pub open spec fn wf(self) -> bool {
        &&& self.referral_reward_denominator > 0
        &&& self.referral_reward_numerator <= self.referral_reward_denominator
        &&& self.referee_discount_denominator > 0
        &&& self.referee_discount_numerator <= self.referee_discount_denominator
    }
}

/// The complete fee schedule.
#[derive(Clone, Copy, Debug, PartialEq, Eq, Structural)]
pub struct FeeStructure {
    pub fee_numerator: u128,
    pub fee_denominator: u128,
    pub discount_token_tiers: DiscountTokenTiers,
    pub referral_discount: ReferralDiscount,
}

impl FeeStructure {
    pub open spec fn wf(self) -> bool {
        &&& self.fee_denominator > 0
        &&& self.fee_numerator <= self.fee_denominator
        &&& self.discount_token_tiers.wf()
        &&& self.referral_discount.wf()
    }

    /// The undiscounted fee: `notional * fee_numerator /
    /// fee_denominator`, rounding down.
    pub open spec fn base_fee(self, notional: int) -> int {
        notional * self.fee_numerator / (self.fee_denominator as int)
    }

    /// The token discount taken off the base fee.
    pub open spec fn token_discount(self, notional: int, balance: int) -> int {
        match self.discount_token_tiers.selected_tier(balance) {
            Some(tier) => self.base_fee(notional) * tier.discount_numerator
                / (tier.discount_denominator as int),
            None => 0,
        }
    }

    /// The referral discount taken off the token-discounted fee.
    pub open spec fn referral_fee_discount(
        self,
        notional: int,
        balance: int,
        is_referred: bool,
    ) -> int {
        if is_referred {
            (self.base_fee(notional) - self.token_discount(notional, balance))
                * self.referral_discount.referee_discount_numerator
                / (self.referral_discount.referee_discount_denominator as int)
        } else {
            0
        }
    }

    /// The fee finally charged.
    pub open spec fn final_fee(self, notional: int, balance: int, is_referred: bool) -> int {
        self.base_fee(notional) - self.token_discount(notional, balance)
            - self.referral_fee_discount(notional, balance, is_referred)
    }

    /// The referrer's reward, a fraction of the fee finally charged.
    pub open spec fn referrer_reward(self, notional: int, balance: int, is_referred: bool) -> int {
        if is_referred {
            self.final_fee(notional, balance, is_referred)
                * self.referral_discount.referral_reward_numerator
                / (self.referral_discount.referral_reward_denominator as int)
        } else {
            0
        }
    }

    /// Some product in the fee computation does not fit in `u128`.
    pub open spec fn fee_overflows(self, notional: int, balance: int, is_referred: bool) -> bool {
        ||| notional * self.fee_numerator > u128::MAX
        ||| (match self.discount_token_tiers.selected_tier(balance) {
            Some(tier) => self.base_fee(notional) * tier.discount_numerator > u128::MAX,
            None => false,
        })
        ||| (is_referred && (self.base_fee(notional) - self.token_discount(notional, balance))
            * self.referral_discount.referee_discount_numerator > u128::MAX)
        ||| (is_referred && self.final_fee(notional, balance, is_referred)
            * self.referral_discount.referral_reward_numerator > u128::MAX)
    }
}

/// The fee charged for a trade together with the discounts applied to
/// it and the referrer's reward.
#[derive(Clone, Copy, Debug, PartialEq, Eq, Structural)]
pub struct FeeBreakdown {
    pub fee: u128,
    pub token_discount: u128,
    pub referral_discount: u128,
    pub referrer_reward: u128,
}

/// Compute the fee for a trade of the given notional.
///
/// The base fee is the schedule's ratio of the notional; the highest
/// discount tier the balance qualifies for reduces it, and a referral
/// reduces the remainder once more (multiplicatively, in that fixed
/// order).  The resulting fee is never negative and never exceeds the
/// base fee; the parts always account exactly for the base fee.
pub fn compute_fee(
    fee_structure: &FeeStructure,
    notional: u128,
    discount_token_balance: u64,
    is_referred: bool,
) -> (r: Result<FeeBreakdown, Errors>)
    requires
        fee_structure.wf(),
    ensures
        fee_structure.fee_overflows(notional as int, discount_token_balance as int, is_referred)
            ==> r == Err::<FeeBreakdown, Errors>(Errors::MathError),
        !fee_structure.fee_overflows(notional as int, discount_token_balance as int, is_referred)
            ==> r == Ok::<FeeBreakdown, Errors>(
            FeeBreakdown {
                fee: fee_structure.final_fee(
                    notional as int,
                    discount_token_balance as int,
                    is_referred,
                ) as u128,
                token_discount: fee_structure.token_discount(
                    notional as int,
                    discount_token_balance as int,
                ) as u128,
                referral_discount: fee_structure.referral_fee_discount(
                    notional as int,
                    discount_token_balance as int,
                    is_referred,
                ) as u128,
                referrer_reward: fee_structure.referrer_reward(
                    notional as int,
                    discount_token_balance as int,
                    is_referred,
                ) as u128,
            },
        ),
        r is Ok ==> 0 <= r->Ok_0.fee <= fee_structure.base_fee(notional as int),
        r is Ok ==> r->Ok_0.fee + r->Ok_0.token_discount + r->Ok_0.referral_discount
            == fee_structure.base_fee(notional as int),
{
    let tiers = &fee_structure.discount_token_tiers;
    let base_fee = match mul_div_u128(
        notional,
        fee_structure.fee_numerator,
        fee_structure.fee_denominator,
    ) {
        Ok(v) => v,
        Err(e) => {
            return Err(e);
        },
    };
    let tier = if discount_token_balance >= tiers.first_tier.minimum_balance {
        Some(&tiers.first_tier)
    } else if discount_token_balance >= tiers.second_tier.minimum_balance {
        Some(&tiers.second_tier)
    } else if discount_token_balance >= tiers.third_tier.minimum_balance {
        Some(&tiers.third_tier)
    } else if discount_token_balance >= tiers.fourth_tier.minimum_balance {
        Some(&tiers.fourth_tier)
    } else {
        None
    };
    let token_discount = match tier {
        Some(t) => {
            let d = match mul_div_u128(base_fee, t.discount_numerator, t.discount_denominator) {
                Ok(v) => v,
                Err(e) => {
                    return Err(e);
                },
            };
            proof {
                lemma_ratio_le(
                    base_fee as int,
                    t.discount_numerator as int,
                    t.discount_denominator as int,
                );
            }
            d
        },
        None => 0,
    };
    let after_token = base_fee - token_discount;
    let referral_discount = if is_referred {
        let d = match mul_div_u128(
            after_token,
            fee_structure.referral_discount.referee_discount_numerator,
            fee_structure.referral_discount.referee_discount_denominator,
        ) {
            Ok(v) => v,
            Err(e) => {
                return Err(e);
            },
        };
        proof {
            lemma_ratio_le(
                after_token as int,
                fee_structure.referral_discount.referee_discount_numerator as int,
                fee_structure.referral_discount.referee_discount_denominator as int,
            );
        }
        d
    } else {
        0
    };
    let fee = after_token - referral_discount;
    let referrer_reward = if is_referred {
        match mul_div_u128(
            fee,
            fee_structure.referral_discount.referral_reward_numerator,
            fee_structure.referral_discount.referral_reward_denominator,
        ) {
            Ok(v) => v,
            Err(e) => {
                return Err(e);
            },
        }
    } else {
        0
    };
    Ok(FeeBreakdown { fee, token_discount, referral_discount, referrer_reward })
}

} // verus!
