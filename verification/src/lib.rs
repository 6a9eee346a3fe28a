//! A verified wagering engine: bet validation, deterministic outcome
//! derivation from a public seed, integer payout computation per game
//! variant, and atomic updates of a vault balance and running totals.
//!
//! The engine is pure: the surrounding runtime supplies the public seed,
//! the clock timestamp and the account identities, performs the actual
//! value transfers that the modeled balances stand for, and publishes
//! the returned outcome record.

pub mod errors;
pub mod state;
pub mod outcome;
pub mod payout;
pub mod engine;
