use vstd::prelude::*;

verus! {

// The outcome generator derives a weak, publicly reproducible
// pseudo-random value from the public seed and the leading bytes of the
// player identity. The derivation is deliberately deterministic: the same
// inputs always give the same outcome, which makes the engine auditable
// at the cost of predictability. The seed must come from a source the
// player cannot control, such as a monotonically advancing
// ledger-height counter read at operation time.

/// Coin flip outcome: `(seed XOR byte0) mod 2`, in `{0, 1}`.
pub open spec fn coin_flip_outcome_spec(seed: u64, player_byte: u8) -> u8 {
    (((seed ^ (player_byte as u64)) % 2) as u8)
}

/// Dice outcome: `(seed XOR byte0) mod 6 + 1`, in `{1, .., 6}`.
pub open spec fn dice_outcome_spec(seed: u64, player_byte: u8) -> u8 {
    (((seed ^ (player_byte as u64)) % 6 + 1) as u8)
}

/// One slots reel: `(seed XOR byte_i) mod 10`, in `{0, .., 9}`.
pub open spec fn reel_spec(seed: u64, player_byte: u8) -> u8 {
    (((seed ^ (player_byte as u64)) % 10) as u8)
}

/// Derive the coin flip outcome.
pub fn coin_flip_outcome(seed: u64, player_byte: u8) -> (r: u8)
    ensures
        r == coin_flip_outcome_spec(seed, player_byte),
        r < 2,
{
    ((seed ^ (player_byte as u64)) % 2) as u8
}

/// Derive the dice outcome.
pub fn dice_outcome(seed: u64, player_byte: u8) -> (r: u8)
    ensures
        r == dice_outcome_spec(seed, player_byte),
        1 <= r <= 6,
{
    ((seed ^ (player_byte as u64)) % 6 + 1) as u8
}

/// Derive one slots reel.
pub fn reel(seed: u64, player_byte: u8) -> (r: u8)
    ensures
        r == reel_spec(seed, player_byte),
        r < 10,
{
    ((seed ^ (player_byte as u64)) % 10) as u8
}

/// Determinism of the coin flip outcome: equal inputs give equal results.
/// There is no hidden state and no internal randomness source.
pub proof fn lemma_coin_flip_outcome_deterministic(s1: u64, b1: u8, s2: u64, b2: u8)
    requires
        s1 == s2,
        b1 == b2,
    ensures
        coin_flip_outcome_spec(s1, b1) == coin_flip_outcome_spec(s2, b2),
{
}

/// Determinism of the dice outcome: equal inputs give equal results.
pub proof fn lemma_dice_outcome_deterministic(s1: u64, b1: u8, s2: u64, b2: u8)
    requires
        s1 == s2,
        b1 == b2,
    ensures
        dice_outcome_spec(s1, b1) == dice_outcome_spec(s2, b2),
{
}

/// Determinism of a slots reel: equal inputs give equal results.
pub proof fn lemma_reel_deterministic(s1: u64, b1: u8, s2: u64, b2: u8)
    requires
        s1 == s2,
        b1 == b2,
    ensures
        reel_spec(s1, b1) == reel_spec(s2, b2),
{
}

} // verus!
