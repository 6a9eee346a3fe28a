use vstd::prelude::*;

verus! {

// The payout calculator maps (game, stake, prediction, outcome) to the
// winning payout. All arithmetic is integer; every multiplication that
// could exceed the 64-bit range is checked, and an overflowing bet is
// rejected before any funds move. The multipliers are fixed constants,
// independent of the stored house-edge field.

/// Coin flip payout on a win: `bet * 195 / 100`, truncating — a fixed
/// 1.95x multiplier encoding a 2.5% edge relative to fair odds of 2x.
pub open spec fn coin_flip_payout_spec(bet: u64) -> int {
    (bet * 195) / 100
}

/// Number of winning dice outcomes for a prediction and mode: outcomes
/// strictly over the prediction in "over" mode, strictly under it in
/// "under" mode.
pub open spec fn dice_win_chance_spec(prediction: u8, is_over: bool) -> int {
    if is_over {
        6 - prediction
    } else {
        prediction - 1
    }
}

/// A dice prediction is playable when it lies in `1..=6` and leaves at
/// least one winning outcome for its mode. `prediction = 6` with "over"
/// and `prediction = 1` with "under" can never win and would divide by
/// zero in the multiplier formula, so they are rejected up front.
pub open spec fn dice_prediction_ok(prediction: u8, is_over: bool) -> bool {
    &&& 1 <= prediction <= 6
    &&& dice_win_chance_spec(prediction, is_over) > 0
}

/// Dice multiplier in percent: `(600 / win_chance) * 95 / 100`, with the
/// division performed first — the truncation order is part of the fixed
/// payout schedule.
pub open spec fn dice_multiplier_percent_spec(prediction: u8, is_over: bool) -> int {
    600int / dice_win_chance_spec(prediction, is_over) * 95 / 100
}

/// Dice payout on a win: `bet * multiplier_percent / 100`, truncating.
pub open spec fn dice_payout_spec(bet: u64, prediction: u8, is_over: bool) -> int {
    bet * dice_multiplier_percent_spec(prediction, is_over) / 100
}

/// Slots multiplier: 25x for three sevens, 10x for any other three of a
/// kind, 2x for exactly two matching reels, 0 otherwise.
pub open spec fn slots_multiplier_spec(r1: u8, r2: u8, r3: u8) -> u64 {
    if r1 == r2 && r2 == r3 {
        if r1 == 7 {
            25
        } else {
            10
        }
    } else if r1 == r2 || r2 == r3 || r1 == r3 {
        2
    } else {
        0
    }
}

/// Slots payout on a win: `bet * multiplier`, a whole multiple with no
/// further percentage scaling.
pub open spec fn slots_payout_spec(bet: u64, r1: u8, r2: u8, r3: u8) -> int {
    bet * slots_multiplier_spec(r1, r2, r3)
}

/// Compute the coin flip payout, rejecting a stake whose scaled product
/// would exceed the 64-bit range.
pub fn coin_flip_payout(bet: u64) -> (r: Option<u64>)
    ensures
        bet * 195 <= u64::MAX ==> r == Some((coin_flip_payout_spec(bet) as u64)),
        bet * 195 > u64::MAX ==> r is None,
{
    match bet.checked_mul(195) {
        Some(p) => Some(p / 100),
        None => None,
    }
}

/// Compute the dice multiplier in percent for a playable prediction.
pub fn dice_multiplier_percent(prediction: u8, is_over: bool) -> (m: u64)
    requires
        dice_prediction_ok(prediction, is_over),
    ensures
        m == dice_multiplier_percent_spec(prediction, is_over),
        m <= 570,
{
    let win_chance: u64 = if is_over {
        (6 - prediction) as u64
    } else {
        (prediction - 1) as u64
    };
    600 / win_chance * 95 / 100
}

/// Compute the dice payout for a playable prediction, rejecting a stake
/// whose scaled product would exceed the 64-bit range.
pub fn dice_payout(bet: u64, prediction: u8, is_over: bool) -> (r: Option<u64>)
    requires
        dice_prediction_ok(prediction, is_over),
    ensures
        bet * dice_multiplier_percent_spec(prediction, is_over) <= u64::MAX ==> r == Some(
            (dice_payout_spec(bet, prediction, is_over) as u64),
        ),
        bet * dice_multiplier_percent_spec(prediction, is_over) > u64::MAX ==> r is None,
{
    let multiplier = dice_multiplier_percent(prediction, is_over);
    match bet.checked_mul(multiplier) {
        Some(p) => Some(p / 100),
        None => None,
    }
}

/// Compute the slots multiplier from the three reels.
pub fn slots_multiplier(r1: u8, r2: u8, r3: u8) -> (m: u64)
    ensures
        m == slots_multiplier_spec(r1, r2, r3),
        m == 0 || m == 2 || m == 10 || m == 25,
{
    if r1 == r2 && r2 == r3 {
        if r1 == 7 {
            25
        } else {
            10
        }
    } else if r1 == r2 || r2 == r3 || r1 == r3 {
        2
    } else {
        0
    }
}

/// Compute the slots payout, rejecting a stake whose product would
/// exceed the 64-bit range.
pub fn slots_payout(bet: u64, r1: u8, r2: u8, r3: u8) -> (r: Option<u64>)
    ensures
        bet * slots_multiplier_spec(r1, r2, r3) <= u64::MAX ==> r == Some(
            (slots_payout_spec(bet, r1, r2, r3) as u64),
        ),
        bet * slots_multiplier_spec(r1, r2, r3) > u64::MAX ==> r is None,
{
    let multiplier = slots_multiplier(r1, r2, r3);
    match bet.checked_mul(multiplier) {
        Some(p) => Some(p),
        None => None,
    }
}

} // verus!
