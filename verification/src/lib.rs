//! Risk and pricing engine for a perpetual-futures clearing house.
//!
//! The crate maintains per-market virtual automated-market-maker (AMM)
//! state, computes funding rates, margin ratios and liquidation outcomes,
//! and enforces fee and discount schedules.  Every operation is a pure,
//! synchronous computation over the snapshot it is handed: the external
//! collaborator (the host ledger) loads a `Market`/`State` snapshot, calls
//! into this crate, and commits the returned values atomically.  Account
//! provisioning, vault derivation and persistence are the collaborator's
//! concern and do not appear here.
//!
//! Operations never retry and never partially apply a multi-field
//! update.  When funding settlement and a margin or liquidation
//! evaluation are both due within one logical step, the collaborator
//! must settle funding first: the margin ratio depends on
//! post-funding state.

pub mod amm;
pub mod errors;
pub mod fees;
pub mod funding;
pub mod layout;
pub mod liquidation;
pub mod margin;
pub mod market;
pub mod math;
pub mod oracle;
pub mod state;
