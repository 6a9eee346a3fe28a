use vstd::prelude::*;

verus! {

/// Every way an operation of the engine can be rejected.
///
/// All of these are detected before any balance or total is touched:
/// an operation that returns an error leaves every modeled balance and
/// the configuration record exactly as they were.
#[derive(Clone, Copy, Debug, PartialEq, Eq)]
pub enum ErrorCode {
    /// The stake is below the configured minimum bet.
    BetTooLow,
    /// The stake is above the configured maximum bet.
    BetTooHigh,
    /// The prediction is outside the game's domain, or names a
    /// dice prediction/mode pair with no winning outcomes.
    InvalidPrediction,
    /// Combined bounds failure for games that check both ends in one step.
    InvalidBetAmount,
    /// The paying balance cannot cover the requested transfer.
    InsufficientFunds,
    /// A payout multiplication or a balance or total addition would
    /// exceed the 64-bit range; the bet is rejected rather than wrapped.
    Overflow,
    /// The configuration record already exists; creation is not repeated.
    AlreadyInitialized,
    /// The caller of an administrative operation is not the bound authority.
    Unauthorized,
}

} // verus!
