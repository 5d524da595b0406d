//! A small incentive ledger: participants register, report contributed
//! bandwidth volume, accrue reward tokens at a configured issuance rate, and
//! redeem tokens for a settlement-currency amount at a configured exchange
//! rate.
//!
//! The crate is organised in two verified components:
//! - [`registry`]: owns the identity-to-record binding, the single global
//!   aggregate record, and the per-user records.
//! - [`ledger`]: the state transitions applied to a user record and the
//!   aggregate — contribute and claim — with their validation rules and
//!   overflow-checked bookkeeping.
//!
//! The central invariants, kept by every operation: the aggregate's totals
//! equal the sums over all user records, and no user ever has more tokens
//! claimed than earned.

pub mod errors;
pub mod laws;
pub mod ledger;
pub mod registry;
pub mod state;
