//! The process-wide configuration singleton and its one-time
//! initialization gates.
//!
//! Account addresses live with the collaborator; the engine carries
//! them as plain numeric identifiers.  Each history reference and the
//! order-state reference is `None` until its one-time initialization
//! call succeeds; later attempts fail and leave the references
//! unchanged.

use vstd::prelude::*;

use crate::errors::Errors;
use crate::fees::{
    DiscountTokenTier, DiscountTokenTiers, FeeStructure, ReferralDiscount,
    DEFAULT_DISCOUNT_TOKEN_FIRST_TIER_DISCOUNT_DENOMINATOR,
    DEFAULT_DISCOUNT_TOKEN_FIRST_TIER_DISCOUNT_NUMERATOR,
    DEFAULT_DISCOUNT_TOKEN_FIRST_TIER_MINIMUM_BALANCE,
    DEFAULT_DISCOUNT_TOKEN_FOURTH_TIER_DISCOUNT_DENOMINATOR,
    DEFAULT_DISCOUNT_TOKEN_FOURTH_TIER_DISCOUNT_NUMERATOR,
    DEFAULT_DISCOUNT_TOKEN_FOURTH_TIER_MINIMUM_BALANCE,
    DEFAULT_DISCOUNT_TOKEN_SECOND_TIER_DISCOUNT_DENOMINATOR,
    DEFAULT_DISCOUNT_TOKEN_SECOND_TIER_DISCOUNT_NUMERATOR,
    DEFAULT_DISCOUNT_TOKEN_SECOND_TIER_MINIMUM_BALANCE,
    DEFAULT_DISCOUNT_TOKEN_THIRD_TIER_DISCOUNT_DENOMINATOR,
    DEFAULT_DISCOUNT_TOKEN_THIRD_TIER_DISCOUNT_NUMERATOR,
    DEFAULT_DISCOUNT_TOKEN_THIRD_TIER_MINIMUM_BALANCE, DEFAULT_FEE_DENOMINATOR,
    DEFAULT_FEE_NUMERATOR, DEFAULT_REFEREE_DISCOUNT_DENOMINATOR,
    DEFAULT_REFEREE_DISCOUNT_NUMERATOR, DEFAULT_REFERRER_REWARD_DENOMINATOR,
    DEFAULT_REFERRER_REWARD_NUMERATOR,
};
use crate::oracle::{OracleGuardRails, PriceDivergenceGuardRails, ValidityGuardRails};

verus! {

/// Reward schedule for order fillers.
#[derive(Clone, Copy, Debug, PartialEq, Eq, Structural)]
pub struct OrderFillerRewardStructure {
    pub reward_numerator: u128,
    pub reward_denominator: u128,
    pub time_based_reward_lower_bound: u128,
}

/// Order-subsystem configuration created by its one-time
/// initialization.
#[derive(Clone, Copy, Debug, PartialEq, Eq, Structural)]
pub struct OrderState {
    pub order_history: u64,
    pub order_filler_reward_structure: OrderFillerRewardStructure,
    pub min_order_quote_asset_amount: u128,
}

/// Process-wide configuration singleton: admin identity, vault
/// references, margin and liquidation parameters, the fee schedule,
/// the oracle guard rails, and the one-time references to the history
/// logs and the order state.
#[derive(Clone, Copy, Debug, PartialEq, Eq)]
pub struct State {
    pub admin: u64,
    pub exchange_paused: bool,
    pub funding_paused: bool,
    pub admin_controls_prices: bool,
    pub collateral_mint: u64,
    pub collateral_vault: u64,
    pub collateral_vault_authority: u64,
    pub collateral_vault_authority_nonce: u8,
    pub insurance_vault: u64,
    pub insurance_vault_authority: u64,
    pub insurance_vault_authority_nonce: u8,
    pub markets: u64,
    pub deposit_history: Option<u64>,
    pub trade_history: Option<u64>,
    pub funding_payment_history: Option<u64>,
    pub funding_rate_history: Option<u64>,
    pub liquidation_history: Option<u64>,
    pub curve_history: Option<u64>,
    pub extended_curve_history: Option<u64>,
    pub order_state: Option<u64>,
    pub margin_ratio_initial: u32,
    pub margin_ratio_partial: u32,
    pub margin_ratio_maintenance: u32,
    pub partial_liquidation_close_percentage_numerator: u128,
    pub partial_liquidation_close_percentage_denominator: u128,
    pub partial_liquidation_penalty_percentage_numerator: u128,
    pub partial_liquidation_penalty_percentage_denominator: u128,
    pub full_liquidation_penalty_percentage_numerator: u128,
    pub full_liquidation_penalty_percentage_denominator: u128,
    pub partial_liquidation_liquidator_share_denominator: u64,
    pub full_liquidation_liquidator_share_denominator: u64,
    pub fee_structure: FeeStructure,
    pub whitelist_mint: u64,
    pub discount_mint: u64,
    pub oracle_guard_rails: OracleGuardRails,
    pub max_deposit: u128,
}

impl State {
    /// Well-formedness: ordered margin thresholds, ratio fractions of
    /// at most one with positive denominators, positive liquidator
    /// share denominators, and well-formed fee schedule and guard
    /// rails.
    pub open spec fn wf(self) -> bool {
        &&& self.margin_ratio_initial > self.margin_ratio_partial > self.margin_ratio_maintenance
            > 0
        &&& self.partial_liquidation_close_percentage_denominator > 0
        &&& self.partial_liquidation_close_percentage_numerator
            <= self.partial_liquidation_close_percentage_denominator
        &&& self.partial_liquidation_penalty_percentage_denominator > 0
        &&& self.partial_liquidation_penalty_percentage_numerator
            <= self.partial_liquidation_penalty_percentage_denominator
        &&& self.full_liquidation_penalty_percentage_denominator > 0
        &&& self.full_liquidation_penalty_percentage_numerator
            <= self.full_liquidation_penalty_percentage_denominator
        &&& self.partial_liquidation_liquidator_share_denominator > 0
        &&& self.full_liquidation_liquidator_share_denominator > 0
        &&& self.fee_structure.wf()
        &&& self.oracle_guard_rails.wf()
    }

    /// All six history references carry a value.
    pub open spec fn histories_all_set(self) -> bool {
        &&& self.trade_history is Some
        &&& self.deposit_history is Some
        &&& self.liquidation_history is Some
        &&& self.funding_rate_history is Some
        &&& self.funding_payment_history is Some
        &&& self.curve_history is Some
    }

    /// Some history reference already carries a value, so the
    /// one-time initialization has nothing left to grant.
    pub open spec fn any_history_set(self) -> bool {
        ||| self.trade_history is Some
        ||| self.deposit_history is Some
        ||| self.liquidation_history is Some
        ||| self.funding_rate_history is Some
        ||| self.funding_payment_history is Some
        ||| self.curve_history is Some
    }

    /// The state after a successful history initialization.
    pub open spec fn with_histories(
        self,
        trade_history: u64,
        deposit_history: u64,
        liquidation_history: u64,
        funding_rate_history: u64,
        funding_payment_history: u64,
        curve_history: u64,
    ) -> State {
        State {
            trade_history: Some(trade_history),
            deposit_history: Some(deposit_history),
            liquidation_history: Some(liquidation_history),
            funding_rate_history: Some(funding_rate_history),
            funding_payment_history: Some(funding_payment_history),
            curve_history: Some(curve_history),
            ..self
        }
    }

    /// The state after a successful order-state initialization.
    pub open spec fn with_order_state(self, order_state: u64) -> State {
        State { order_state: Some(order_state), ..self }
    }
}

/// Create the configuration singleton.
///
/// The supplied vault authorities must match the ones the
/// collaborator derived (collateral first, then insurance); a
/// mismatch is a configuration error and nothing is created.  On
/// success every field holds its documented default: margin
/// thresholds 2000 / 625 / 500 basis points, partial liquidations
/// closing 25/100 of the position at a 25/1000 penalty with the
/// liquidator taking half, full liquidations closing everything at a
/// 1/1 penalty with the liquidator taking a twentieth, the default
/// fee schedule, and every one-time reference unset.
pub fn initialize(
    admin: u64,
    collateral_mint: u64,
    collateral_vault: u64,
    collateral_vault_authority: u64,
    derived_collateral_vault_authority: u64,
    collateral_vault_authority_nonce: u8,
    insurance_vault: u64,
    insurance_vault_authority: u64,
    derived_insurance_vault_authority: u64,
    insurance_vault_authority_nonce: u8,
    markets: u64,
    admin_controls_prices: bool,
) -> (r: Result<State, Errors>)
    ensures
        collateral_vault_authority != derived_collateral_vault_authority ==> r == Err::<
            State,
            Errors,
        >(Errors::InvalidCollateralVaultAuthority),
        collateral_vault_authority == derived_collateral_vault_authority
            && insurance_vault_authority != derived_insurance_vault_authority ==> r == Err::<
            State,
            Errors,
        >(Errors::InvalidInsuranceVaultAuthority),
        collateral_vault_authority == derived_collateral_vault_authority
            && insurance_vault_authority == derived_insurance_vault_authority ==> {
            &&& r is Ok
            &&& r->Ok_0.wf()
            &&& r->Ok_0 == (State {
                admin,
                exchange_paused: false,
                funding_paused: false,
                admin_controls_prices,
                collateral_mint,
                collateral_vault,
                collateral_vault_authority,
                collateral_vault_authority_nonce,
                insurance_vault,
                insurance_vault_authority,
                insurance_vault_authority_nonce,
                markets,
                deposit_history: None,
                trade_history: None,
                funding_payment_history: None,
                funding_rate_history: None,
                liquidation_history: None,
                curve_history: None,
                extended_curve_history: None,
                order_state: None,
                margin_ratio_initial: 2000u32,
                margin_ratio_partial: 625u32,
                margin_ratio_maintenance: 500u32,
                partial_liquidation_close_percentage_numerator: 25u128,
                partial_liquidation_close_percentage_denominator: 100u128,
                partial_liquidation_penalty_percentage_numerator: 25u128,
                partial_liquidation_penalty_percentage_denominator: 1000u128,
                full_liquidation_penalty_percentage_numerator: 1u128,
                full_liquidation_penalty_percentage_denominator: 1u128,
                partial_liquidation_liquidator_share_denominator: 2u64,
                full_liquidation_liquidator_share_denominator: 20u64,
                fee_structure: default_fee_structure_spec(),
                whitelist_mint: 0u64,
                discount_mint: 0u64,
                oracle_guard_rails: default_oracle_guard_rails_spec(),
                max_deposit: 0u128,
            })
        },
{
    if collateral_vault_authority != derived_collateral_vault_authority {
        return Err(Errors::InvalidCollateralVaultAuthority);
    }
    if insurance_vault_authority != derived_insurance_vault_authority {
        return Err(Errors::InvalidInsuranceVaultAuthority);
    }
    Ok(
        State {
            admin,
            exchange_paused: false,
            funding_paused: false,
            admin_controls_prices,
            collateral_mint,
            collateral_vault,
            collateral_vault_authority,
            collateral_vault_authority_nonce,
            insurance_vault,
            insurance_vault_authority,
            insurance_vault_authority_nonce,
            markets,
            deposit_history: None,
            trade_history: None,
            funding_payment_history: None,
            funding_rate_history: None,
            liquidation_history: None,
            curve_history: None,
            extended_curve_history: None,
            order_state: None,
            margin_ratio_initial: 2000,
            margin_ratio_partial: 625,
            margin_ratio_maintenance: 500,
            partial_liquidation_close_percentage_numerator: 25,
            partial_liquidation_close_percentage_denominator: 100,
            partial_liquidation_penalty_percentage_numerator: 25,
            partial_liquidation_penalty_percentage_denominator: 1000,
            full_liquidation_penalty_percentage_numerator: 1,
            full_liquidation_penalty_percentage_denominator: 1,
            partial_liquidation_liquidator_share_denominator: 2,
            full_liquidation_liquidator_share_denominator: 20,
            fee_structure: default_fee_structure(),
            whitelist_mint: 0,
            discount_mint: 0,
            oracle_guard_rails: default_oracle_guard_rails(),
            max_deposit: 0,
        },
    )
}

/// The default fee schedule.
pub open spec fn default_fee_structure_spec() -> FeeStructure {
    FeeStructure {
        fee_numerator: DEFAULT_FEE_NUMERATOR,
        fee_denominator: DEFAULT_FEE_DENOMINATOR,
        discount_token_tiers: DiscountTokenTiers {
            first_tier: DiscountTokenTier {
                minimum_balance: DEFAULT_DISCOUNT_TOKEN_FIRST_TIER_MINIMUM_BALANCE,
                discount_numerator: DEFAULT_DISCOUNT_TOKEN_FIRST_TIER_DISCOUNT_NUMERATOR,
                discount_denominator: DEFAULT_DISCOUNT_TOKEN_FIRST_TIER_DISCOUNT_DENOMINATOR,
            },
            second_tier: DiscountTokenTier {
                minimum_balance: DEFAULT_DISCOUNT_TOKEN_SECOND_TIER_MINIMUM_BALANCE,
                discount_numerator: DEFAULT_DISCOUNT_TOKEN_SECOND_TIER_DISCOUNT_NUMERATOR,
                discount_denominator: DEFAULT_DISCOUNT_TOKEN_SECOND_TIER_DISCOUNT_DENOMINATOR,
            },
            third_tier: DiscountTokenTier {
                minimum_balance: DEFAULT_DISCOUNT_TOKEN_THIRD_TIER_MINIMUM_BALANCE,
                discount_numerator: DEFAULT_DISCOUNT_TOKEN_THIRD_TIER_DISCOUNT_NUMERATOR,
                discount_denominator: DEFAULT_DISCOUNT_TOKEN_THIRD_TIER_DISCOUNT_DENOMINATOR,
            },
            fourth_tier: DiscountTokenTier {
                minimum_balance: DEFAULT_DISCOUNT_TOKEN_FOURTH_TIER_MINIMUM_BALANCE,
                discount_numerator: DEFAULT_DISCOUNT_TOKEN_FOURTH_TIER_DISCOUNT_NUMERATOR,
                discount_denominator: DEFAULT_DISCOUNT_TOKEN_FOURTH_TIER_DISCOUNT_DENOMINATOR,
            },
        },
        referral_discount: ReferralDiscount {
            referral_reward_numerator: DEFAULT_REFERRER_REWARD_NUMERATOR,
            referral_reward_denominator: DEFAULT_REFERRER_REWARD_DENOMINATOR,
            referee_discount_numerator: DEFAULT_REFEREE_DISCOUNT_NUMERATOR,
            referee_discount_denominator: DEFAULT_REFEREE_DISCOUNT_DENOMINATOR,
        },
    }
}

/// Build the default fee schedule.
pub fn default_fee_structure() -> (r: FeeStructure)
    ensures
        r == default_fee_structure_spec(),
        r.wf(),
{
    FeeStructure {
        fee_numerator: DEFAULT_FEE_NUMERATOR,
        fee_denominator: DEFAULT_FEE_DENOMINATOR,
        discount_token_tiers: DiscountTokenTiers {
            first_tier: DiscountTokenTier {
                minimum_balance: DEFAULT_DISCOUNT_TOKEN_FIRST_TIER_MINIMUM_BALANCE,
                discount_numerator: DEFAULT_DISCOUNT_TOKEN_FIRST_TIER_DISCOUNT_NUMERATOR,
                discount_denominator: DEFAULT_DISCOUNT_TOKEN_FIRST_TIER_DISCOUNT_DENOMINATOR,
            },
            second_tier: DiscountTokenTier {
                minimum_balance: DEFAULT_DISCOUNT_TOKEN_SECOND_TIER_MINIMUM_BALANCE,
                discount_numerator: DEFAULT_DISCOUNT_TOKEN_SECOND_TIER_DISCOUNT_NUMERATOR,
                discount_denominator: DEFAULT_DISCOUNT_TOKEN_SECOND_TIER_DISCOUNT_DENOMINATOR,
            },
            third_tier: DiscountTokenTier {
                minimum_balance: DEFAULT_DISCOUNT_TOKEN_THIRD_TIER_MINIMUM_BALANCE,
                discount_numerator: DEFAULT_DISCOUNT_TOKEN_THIRD_TIER_DISCOUNT_NUMERATOR,
                discount_denominator: DEFAULT_DISCOUNT_TOKEN_THIRD_TIER_DISCOUNT_DENOMINATOR,
            },
            fourth_tier: DiscountTokenTier {
                minimum_balance: DEFAULT_DISCOUNT_TOKEN_FOURTH_TIER_MINIMUM_BALANCE,
                discount_numerator: DEFAULT_DISCOUNT_TOKEN_FOURTH_TIER_DISCOUNT_NUMERATOR,
                discount_denominator: DEFAULT_DISCOUNT_TOKEN_FOURTH_TIER_DISCOUNT_DENOMINATOR,
            },
        },
        referral_discount: ReferralDiscount {
            referral_reward_numerator: DEFAULT_REFERRER_REWARD_NUMERATOR,
            referral_reward_denominator: DEFAULT_REFERRER_REWARD_DENOMINATOR,
            referee_discount_numerator: DEFAULT_REFEREE_DISCOUNT_NUMERATOR,
            referee_discount_denominator: DEFAULT_REFEREE_DISCOUNT_DENOMINATOR,
        },
    }
}

/// The default oracle guard rails: at most a tenth of divergence
/// between mark and oracle price, a thousand slots before a reading
/// is stale, and guard rails enforced during liquidations.
pub open spec fn default_oracle_guard_rails_spec() -> OracleGuardRails {
    OracleGuardRails {
        price_divergence: PriceDivergenceGuardRails {
            mark_oracle_divergence_numerator: 1u128,
            mark_oracle_divergence_denominator: 10u128,
        },
        validity: ValidityGuardRails {
            slots_before_stable: 1000u64,
            confidence_interval_max_size: 4u128,
            too_volatile_ratio: 5u128,
        },
        use_for_liquidations: true,
    }
}

/// Build the default oracle guard rails.
pub fn default_oracle_guard_rails() -> (r: OracleGuardRails)
    ensures
        r == default_oracle_guard_rails_spec(),
        r.wf(),
{
    OracleGuardRails {
        price_divergence: PriceDivergenceGuardRails {
            mark_oracle_divergence_numerator: 1,
            mark_oracle_divergence_denominator: 10,
        },
        validity: ValidityGuardRails {
            slots_before_stable: 1000,
            confidence_interval_max_size: 4,
            too_volatile_ratio: 5,
        },
        use_for_liquidations: true,
    }
}

/// One-time initialization of the six history references.
///
/// Each reference is granted once: if any of the six is already set,
/// the call fails with a domain-specific error and leaves every
/// reference exactly as it was; otherwise it sets all six atomically.
pub fn intialize_history(
    state: &mut State,
    trade_history: u64,
    deposit_history: u64,
    liquidation_history: u64,
    funding_rate_history: u64,
    funding_payment_history: u64,
    curve_history: u64,
) -> (r: Result<(), Errors>)
    ensures
        old(state).any_history_set() ==> r == Err::<(), Errors>(Errors::HistoriesAllInitialized)
            && *final(state) == *old(state),
        !old(state).any_history_set() ==> r == Ok::<(), Errors>(()) && *final(state) == old(
            state,
        ).with_histories(
            trade_history,
            deposit_history,
            liquidation_history,
            funding_rate_history,
            funding_payment_history,
            curve_history,
        ),
        !old(state).any_history_set() ==> final(state).histories_all_set(),
{
    if state.trade_history.is_some() || state.deposit_history.is_some()
        || state.liquidation_history.is_some() || state.funding_rate_history.is_some()
        || state.funding_payment_history.is_some() || state.curve_history.is_some() {
        return Err(Errors::HistoriesAllInitialized);
    }
    state.trade_history = Some(trade_history);
    state.deposit_history = Some(deposit_history);
    state.liquidation_history = Some(liquidation_history);
    state.funding_rate_history = Some(funding_rate_history);
    state.funding_payment_history = Some(funding_payment_history);
    state.curve_history = Some(curve_history);
    Ok(())
}

/// One-time initialization of the order subsystem.
///
/// Fails, leaving the state unchanged, when the order-state reference
/// is already set; otherwise records the reference and returns the
/// order configuration for the collaborator to persist.
pub fn initialize_order_state(state: &mut State, order_state: u64, order_history: u64) -> (r:
    Result<OrderState, Errors>)
    ensures
        old(state).order_state is Some ==> r == Err::<OrderState, Errors>(
            Errors::OrderStateAlreadyInitialized,
        ) && *final(state) == *old(state),
        old(state).order_state is None ==> r == Ok::<OrderState, Errors>(
            OrderState {
                order_history,
                order_filler_reward_structure: OrderFillerRewardStructure {
                    reward_numerator: 1u128,
                    reward_denominator: 10u128,
                    time_based_reward_lower_bound: 10_000u128,
                },
                min_order_quote_asset_amount: 500_000u128,
            },
        ) && *final(state) == old(state).with_order_state(order_state),
{
    if state.order_state.is_some() {
        return Err(Errors::OrderStateAlreadyInitialized);
    }
    state.order_state = Some(order_state);
    Ok(
        OrderState {
            order_history,
            order_filler_reward_structure: OrderFillerRewardStructure {
                reward_numerator: 1,
                reward_denominator: 10,
                time_based_reward_lower_bound: 10_000,
            },
            min_order_quote_asset_amount: 500_000,
        },
    )
}

/// History initialization is one-time: any state produced by a
/// successful `intialize_history` has every history reference set,
/// so by `intialize_history`'s contract a second call fails with
/// `Errors::HistoriesAllInitialized` and changes nothing.
pub proof fn lemma_history_initialization_is_one_time(
    s: State,
    trade_history: u64,
    deposit_history: u64,
    liquidation_history: u64,
    funding_rate_history: u64,
    funding_payment_history: u64,
    curve_history: u64,
)
    ensures
        s.with_histories(
            trade_history,
            deposit_history,
            liquidation_history,
            funding_rate_history,
            funding_payment_history,
            curve_history,
        ).histories_all_set(),
        s.with_histories(
            trade_history,
            deposit_history,
            liquidation_history,
            funding_rate_history,
            funding_payment_history,
            curve_history,
        ).any_history_set(),
{
}

/// Order-state initialization is one-time: any state produced by a
/// successful `initialize_order_state` has the order-state reference
/// set, so by `initialize_order_state`'s contract a second call fails
/// with `Errors::OrderStateAlreadyInitialized` and changes nothing.
pub proof fn lemma_order_state_initialization_is_one_time(s: State, order_state: u64)
    ensures
        s.with_order_state(order_state).order_state is Some,
{
}

} // verus!
