//! Transactional core of a merchandise-sale ledger.
//!
//! Product records gate purchases by time window and supply, track
//! per-edition claim counts idempotently, and drive a multi-leg payment
//! distribution with optional referral commissions.  The host ledger
//! supplies atomic transaction execution, account storage and fund
//! transfers; this crate computes every decision and effect from plain
//! values, so a purchase or configuration call either yields a complete
//! set of effects or a terminal error with no effect at all.

pub mod errors;
pub mod state;
pub mod codec;
pub mod configure;
pub mod buy;
pub mod laws;
