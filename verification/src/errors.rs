use vstd::prelude::*;

verus! {

/// Error taxonomy surfaced to the collaborator as a tagged result.
///
/// Configuration errors (vault-authority mismatches, double initialization
/// of a one-time resource) and arithmetic errors abort the enclosing
/// operation with no partial state committed.  Oracle errors are
/// recoverable at the caller's discretion.  Domain violations (for
/// example, liquidating a healthy position) are rejected before any state
/// mutation.
#[derive(Clone, Copy, Debug, PartialEq, Eq, Structural)]
pub enum Errors {
    /// The supplied collateral-vault authority is not the derived one.
    InvalidCollateralVaultAuthority,
    /// The supplied insurance-vault authority is not the derived one.
    InvalidInsuranceVaultAuthority,
    /// The six history references were already initialized.
    HistoriesAllInitialized,
    /// The order-state reference was already initialized.
    OrderStateAlreadyInitialized,
    /// Overflow, reserve depletion, or another arithmetic fault; never
    /// silently clamped.
    MathError,
    /// Liquidation was requested for a position whose margin ratio is in
    /// the healthy band.
    SufficientCollateral,
    /// The oracle reading is older than the guard rails allow.
    OracleStale,
    /// The oracle's confidence interval or price movement exceeds the
    /// guard rails.
    OracleTooVolatile,
    /// The mark price diverges from the oracle price beyond the guard
    /// rails.
    OracleDiverged,
}

} // verus!
