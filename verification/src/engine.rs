use vstd::prelude::*;

use crate::errors::ErrorCode;
use crate::state::{Casino, FundVault, GamePlayed, Initialize, PlayGame};
use crate::state::{identities_equal, same_identity};
use crate::outcome::{coin_flip_outcome, coin_flip_outcome_spec};
use crate::outcome::{dice_outcome, dice_outcome_spec};
use crate::outcome::{reel, reel_spec};
use crate::payout::{coin_flip_payout, coin_flip_payout_spec};
use crate::payout::{
    dice_multiplier_percent_spec,
    dice_payout,
    dice_payout_spec,
    dice_prediction_ok,
};
use crate::payout::{slots_multiplier, slots_multiplier_spec, slots_payout, slots_payout_spec};

verus! {

// The wager transaction coordinator. Each operation takes the state it
// touches as one exclusively-owned mutable value, validates everything —
// bounds, prediction domain, payout computability, both transfer legs,
// and every addition into a balance or total — before mutating anything,
// and then commits the whole financial effect in one step. An operation
// that returns an error therefore leaves the state exactly as it was:
// there is no partial failure.

/// House edge recorded at creation, in basis points (2.5%).
pub const INITIAL_HOUSE_EDGE: u16 = 250;

/// Smallest accepted stake, in minor units.
pub const INITIAL_MIN_BET: u64 = 10_000_000;

/// Largest accepted stake, in minor units.
pub const INITIAL_MAX_BET: u64 = 10_000_000_000;

/// The configuration record as `initialize` creates it.
pub open spec fn initial_casino_spec(authority: [u8; 32], vault_bump: u8) -> Casino {
    Casino {
        authority,
        vault_bump,
        total_wagered: 0,
        total_payout: 0,
        house_edge: INITIAL_HOUSE_EDGE,
        min_bet: INITIAL_MIN_BET,
        max_bet: INITIAL_MAX_BET,
    }
}

/// A freshly created record is well formed.
pub proof fn lemma_initial_casino_wf(authority: [u8; 32], vault_bump: u8)
    ensures
        initial_casino_spec(authority, vault_bump).wf(),
{
}

/// Create the configuration record, binding the caller as authority and
/// fixing the house edge and the bet bounds.
///
/// Creation happens at most once: against a slot that already holds a
/// record the call is rejected and the existing record is untouched.
pub fn initialize(ctx: &mut Initialize, vault_bump: u8) -> (r: Result<(), ErrorCode>)
    ensures
        old(ctx).casino is Some ==> r == Err::<(), ErrorCode>(ErrorCode::AlreadyInitialized)
            && *final(ctx) == *old(ctx),
        old(ctx).casino is None ==> r == Ok::<(), ErrorCode>(()) && final(ctx).casino == Some(
            initial_casino_spec(old(ctx).authority, vault_bump),
        ) && final(ctx).authority == old(ctx).authority,
{
    if ctx.casino.is_some() {
        return Err(ErrorCode::AlreadyInitialized);
    }
    ctx.casino = Some(
        Casino {
            authority: ctx.authority,
            vault_bump,
            total_wagered: 0,
            total_payout: 0,
            house_edge: INITIAL_HOUSE_EDGE,
            min_bet: INITIAL_MIN_BET,
            max_bet: INITIAL_MAX_BET,
        },
    );
    Ok(())
}

/// The first rejection the settlement of a bet meets, if any, given the
/// payout `payout` owed on a win (zero on a loss): the player must cover
/// the stake, the vault must not outgrow the 64-bit range on receiving
/// it, the vault (stake included) must cover the payout, the player's
/// balance must not outgrow the range on receiving the payout, and both
/// running totals must stay within the range — checked in that order.
pub open spec fn settlement_error_spec(
    st: PlayGame,
    bet: u64,
    won: bool,
    payout: u64,
) -> Option<ErrorCode> {
    if st.player_balance < bet {
        Some(ErrorCode::InsufficientFunds)
    } else if st.vault_balance + bet > u64::MAX {
        Some(ErrorCode::Overflow)
    } else if won && st.vault_balance + bet < payout {
        Some(ErrorCode::InsufficientFunds)
    } else if won && st.player_balance - bet + payout > u64::MAX {
        Some(ErrorCode::Overflow)
    } else if st.casino.total_wagered + bet > u64::MAX {
        Some(ErrorCode::Overflow)
    } else if st.casino.total_payout + payout > u64::MAX {
        Some(ErrorCode::Overflow)
    } else {
        None
    }
}

/// The state after an accepted bet of `bet` paying `payout`: the stake
/// moves from the player to the vault, the payout (zero on a loss) moves
/// back, `total_wagered` grows by the stake, `total_payout` by the
/// payout, and nothing else changes.
pub open spec fn settled_state_spec(st: PlayGame, bet: u64, payout: u64) -> PlayGame {
    PlayGame {
        casino: Casino {
            total_wagered: (st.casino.total_wagered + bet) as u64,
            total_payout: (st.casino.total_payout + payout) as u64,
            ..st.casino
        },
        vault_balance: ((st.vault_balance + bet - payout) as u64),
        player_balance: ((st.player_balance - bet + payout) as u64),
        ..st
    }
}

/// Commit one bet's financial effect — stake in, payout out, totals — in
/// a single all-or-nothing step.
fn settle(ctx: &mut PlayGame, bet: u64, won: bool, payout: u64) -> (r: Result<(), ErrorCode>)
    requires
        !won ==> payout == 0,
    ensures
        match settlement_error_spec(*old(ctx), bet, won, payout) {
            Some(e) => r == Err::<(), ErrorCode>(e) && *final(ctx) == *old(ctx),
            None => r == Ok::<(), ErrorCode>(()) && *final(ctx) == settled_state_spec(
                *old(ctx),
                bet,
                payout,
            ),
        },
{
    if ctx.player_balance < bet {
        return Err(ErrorCode::InsufficientFunds);
    }
    let vault_with_stake = match ctx.vault_balance.checked_add(bet) {
        Some(v) => v,
        None => {
            return Err(ErrorCode::Overflow);
        },
    };
    let player_less_stake = ctx.player_balance - bet;
    let new_vault: u64;
    let new_player: u64;
    if won {
        if vault_with_stake < payout {
            return Err(ErrorCode::InsufficientFunds);
        }
        new_vault = vault_with_stake - payout;
        new_player = match player_less_stake.checked_add(payout) {
            Some(p) => p,
            None => {
                return Err(ErrorCode::Overflow);
            },
        };
    } else {
        new_vault = vault_with_stake;
        new_player = player_less_stake;
    }
    let new_wagered = match ctx.casino.total_wagered.checked_add(bet) {
        Some(w) => w,
        None => {
            return Err(ErrorCode::Overflow);
        },
    };
    let new_paid = match ctx.casino.total_payout.checked_add(payout) {
        Some(p) => p,
        None => {
            return Err(ErrorCode::Overflow);
        },
    };
    ctx.casino.total_wagered = new_wagered;
    ctx.casino.total_payout = new_paid;
    ctx.vault_balance = new_vault;
    ctx.player_balance = new_player;
    Ok(())
}

/// Whether a coin flip bet wins: the derived outcome equals the
/// prediction.
pub open spec fn coin_flip_won_spec(st: PlayGame, prediction: u8, seed: u64) -> bool {
    coin_flip_outcome_spec(seed, st.player[0]) == prediction
}

/// The payout a coin flip bet disburses: the 1.95x schedule on a win,
/// zero on a loss.
pub open spec fn coin_flip_paid_spec(st: PlayGame, bet: u64, prediction: u8, seed: u64) -> u64 {
    if coin_flip_won_spec(st, prediction, seed) {
        (coin_flip_payout_spec(bet) as u64)
    } else {
        0
    }
}

/// The first rejection a coin flip bet meets, if any: bounds in the
/// order low then high, the prediction domain `{0, 1}`, a winning payout
/// product beyond the 64-bit range, then settlement.
pub open spec fn coin_flip_error_spec(
    st: PlayGame,
    bet: u64,
    prediction: u8,
    seed: u64,
) -> Option<ErrorCode> {
    if bet < st.casino.min_bet {
        Some(ErrorCode::BetTooLow)
    } else if bet > st.casino.max_bet {
        Some(ErrorCode::BetTooHigh)
    } else if prediction > 1 {
        Some(ErrorCode::InvalidPrediction)
    } else if coin_flip_won_spec(st, prediction, seed) && bet * 195 > u64::MAX {
        Some(ErrorCode::Overflow)
    } else {
        settlement_error_spec(
            st,
            bet,
            coin_flip_won_spec(st, prediction, seed),
            coin_flip_paid_spec(st, bet, prediction, seed),
        )
    }
}

/// The outcome record an accepted coin flip bet publishes.
pub open spec fn coin_flip_event_spec(
    st: PlayGame,
    bet: u64,
    prediction: u8,
    seed: u64,
    timestamp: i64,
) -> GamePlayed {
    GamePlayed {
        player: st.player,
        game_type: 0,
        bet_amount: bet,
        prediction,
        result: coin_flip_outcome_spec(seed, st.player[0]),
        won: coin_flip_won_spec(st, prediction, seed),
        payout: coin_flip_paid_spec(st, bet, prediction, seed),
        timestamp,
    }
}

/// Place a coin flip bet: predict `0` (heads) or `1` (tails); a correct
/// prediction pays 1.95x the stake.
///
/// The stake is validated against the record's bounds, the outcome is
/// derived from the public seed and the first player-identity byte, and
/// stake, payout and totals are committed in one atomic step — or, on
/// any rejection, not at all.
pub fn play_coin_flip(
    ctx: &mut PlayGame,
    bet_amount: u64,
    prediction: u8,
    seed: u64,
    timestamp: i64,
) -> (r: Result<GamePlayed, ErrorCode>)
    ensures
        match coin_flip_error_spec(*old(ctx), bet_amount, prediction, seed) {
            Some(e) => r == Err::<GamePlayed, ErrorCode>(e),
            None => r == Ok::<GamePlayed, ErrorCode>(
                coin_flip_event_spec(*old(ctx), bet_amount, prediction, seed, timestamp),
            ) && *final(ctx) == settled_state_spec(
                *old(ctx),
                bet_amount,
                coin_flip_paid_spec(*old(ctx), bet_amount, prediction, seed),
            ),
        },
        // A rejected bet moves no funds and changes nothing.
        r is Err ==> *final(ctx) == *old(ctx),
        // Each accepted bet counts its stake into `total_wagered` exactly once.
        r is Ok ==> final(ctx).casino.total_wagered == old(ctx).casino.total_wagered
            + bet_amount,
        // A losing bet pays exactly zero and leaves `total_payout` unchanged.
        r matches Ok(ev) ==> (!ev.won ==> ev.payout == 0 && final(ctx).casino.total_payout
            == old(ctx).casino.total_payout),
        // Stake in and payout out never desynchronize the two balances.
        r is Ok ==> final(ctx).player_balance + final(ctx).vault_balance == old(ctx).player_balance + old(ctx).vault_balance,
        // Totals only ever grow; parameters and identities never change.
        final(ctx).casino.total_wagered >= old(ctx).casino.total_wagered,
        final(ctx).casino.total_payout >= old(ctx).casino.total_payout,
        final(ctx).casino.authority == old(ctx).casino.authority,
        final(ctx).casino.vault_bump == old(ctx).casino.vault_bump,
        final(ctx).casino.house_edge == old(ctx).casino.house_edge,
        final(ctx).casino.min_bet == old(ctx).casino.min_bet,
        final(ctx).casino.max_bet == old(ctx).casino.max_bet,
        final(ctx).player == old(ctx).player,
{
    if bet_amount < ctx.casino.min_bet {
        return Err(ErrorCode::BetTooLow);
    }
    if bet_amount > ctx.casino.max_bet {
        return Err(ErrorCode::BetTooHigh);
    }
    if prediction > 1 {
        return Err(ErrorCode::InvalidPrediction);
    }
    let result = coin_flip_outcome(seed, ctx.player[0]);
    let won = result == prediction;
    let payout: u64 = if won {
        match coin_flip_payout(bet_amount) {
            Some(p) => p,
            None => {
                return Err(ErrorCode::Overflow);
            },
        }
    } else {
        0
    };
    match settle(ctx, bet_amount, won, payout) {
        Ok(()) => Ok(
            GamePlayed {
                player: ctx.player,
                game_type: 0,
                bet_amount,
                prediction,
                result,
                won,
                payout,
                timestamp,
            },
        ),
        Err(e) => Err(e),
    }
}

/// Whether a dice bet wins: the derived outcome is strictly over the
/// prediction in "over" mode, strictly under it in "under" mode.
pub open spec fn dice_won_spec(st: PlayGame, prediction: u8, is_over: bool, seed: u64) -> bool {
    if is_over {
        dice_outcome_spec(seed, st.player[0]) > prediction
    } else {
        dice_outcome_spec(seed, st.player[0]) < prediction
    }
}

/// The payout a dice bet disburses: the probability-scaled schedule on a
/// win, zero on a loss.
pub open spec fn dice_paid_spec(
    st: PlayGame,
    bet: u64,
    prediction: u8,
    is_over: bool,
    seed: u64,
) -> u64 {
    if dice_won_spec(st, prediction, is_over, seed) {
        (dice_payout_spec(bet, prediction, is_over) as u64)
    } else {
        0
    }
}

/// The first rejection a dice bet meets, if any: both stake bounds in
/// one combined step, the prediction domain `1..=6` and the requirement
/// that the prediction/mode pair leave a winning outcome, a winning
/// payout product beyond the 64-bit range, then settlement.
pub open spec fn dice_error_spec(
    st: PlayGame,
    bet: u64,
    prediction: u8,
    is_over: bool,
    seed: u64,
) -> Option<ErrorCode> {
    if bet < st.casino.min_bet || bet > st.casino.max_bet {
        Some(ErrorCode::InvalidBetAmount)
    } else if !dice_prediction_ok(prediction, is_over) {
        Some(ErrorCode::InvalidPrediction)
    } else if dice_won_spec(st, prediction, is_over, seed) && bet * dice_multiplier_percent_spec(
        prediction,
        is_over,
    ) > u64::MAX {
        Some(ErrorCode::Overflow)
    } else {
        settlement_error_spec(
            st,
            bet,
            dice_won_spec(st, prediction, is_over, seed),
            dice_paid_spec(st, bet, prediction, is_over, seed),
        )
    }
}

/// The outcome record an accepted dice bet publishes.
pub open spec fn dice_event_spec(
    st: PlayGame,
    bet: u64,
    prediction: u8,
    is_over: bool,
    seed: u64,
    timestamp: i64,
) -> GamePlayed {
    GamePlayed {
        player: st.player,
        game_type: 1,
        bet_amount: bet,
        prediction,
        result: dice_outcome_spec(seed, st.player[0]),
        won: dice_won_spec(st, prediction, is_over, seed),
        payout: dice_paid_spec(st, bet, prediction, is_over, seed),
        timestamp,
    }
}

/// Place a dice bet: predict a target in `1..=6` and a mode; the bet
/// wins when the rolled outcome is strictly over ("over") or strictly
/// under ("under") the target, paying `(600 / win_chance) * 95 / 100`
/// percent of the stake, where `win_chance` counts the winning outcomes.
///
/// A prediction whose mode leaves no winning outcome (`6` with "over",
/// `1` with "under") is rejected up front: its multiplier formula would
/// divide by zero.
pub fn play_dice_roll(
    ctx: &mut PlayGame,
    bet_amount: u64,
    prediction: u8,
    is_over: bool,
    seed: u64,
    timestamp: i64,
) -> (r: Result<GamePlayed, ErrorCode>)
    ensures
        match dice_error_spec(*old(ctx), bet_amount, prediction, is_over, seed) {
            Some(e) => r == Err::<GamePlayed, ErrorCode>(e),
            None => r == Ok::<GamePlayed, ErrorCode>(
                dice_event_spec(*old(ctx), bet_amount, prediction, is_over, seed, timestamp),
            ) && *final(ctx) == settled_state_spec(
                *old(ctx),
                bet_amount,
                dice_paid_spec(*old(ctx), bet_amount, prediction, is_over, seed),
            ),
        },
        // A rejected bet moves no funds and changes nothing.
        r is Err ==> *final(ctx) == *old(ctx),
        // Each accepted bet counts its stake into `total_wagered` exactly once.
        r is Ok ==> final(ctx).casino.total_wagered == old(ctx).casino.total_wagered
            + bet_amount,
        // A losing bet pays exactly zero and leaves `total_payout` unchanged.
        r matches Ok(ev) ==> (!ev.won ==> ev.payout == 0 && final(ctx).casino.total_payout
            == old(ctx).casino.total_payout),
        // Stake in and payout out never desynchronize the two balances.
        r is Ok ==> final(ctx).player_balance + final(ctx).vault_balance == old(
            ctx,
        ).player_balance + old(ctx).vault_balance,
        // Totals only ever grow; parameters and identities never change.
        final(ctx).casino.total_wagered >= old(ctx).casino.total_wagered,
        final(ctx).casino.total_payout >= old(ctx).casino.total_payout,
        final(ctx).casino.authority == old(ctx).casino.authority,
        final(ctx).casino.vault_bump == old(ctx).casino.vault_bump,
        final(ctx).casino.house_edge == old(ctx).casino.house_edge,
        final(ctx).casino.min_bet == old(ctx).casino.min_bet,
        final(ctx).casino.max_bet == old(ctx).casino.max_bet,
        final(ctx).player == old(ctx).player,
{
    if bet_amount < ctx.casino.min_bet || bet_amount > ctx.casino.max_bet {
        return Err(ErrorCode::InvalidBetAmount);
    }
    if prediction < 1 || prediction > 6 {
        return Err(ErrorCode::InvalidPrediction);
    }
    if (is_over && prediction == 6) || (!is_over && prediction == 1) {
        return Err(ErrorCode::InvalidPrediction);
    }
    let result = dice_outcome(seed, ctx.player[0]);
    let won = if is_over {
        result > prediction
    } else {
        result < prediction
    };
    let payout: u64 = if won {
        match dice_payout(bet_amount, prediction, is_over) {
            Some(p) => p,
            None => {
                return Err(ErrorCode::Overflow);
            },
        }
    } else {
        0
    };
    match settle(ctx, bet_amount, won, payout) {
        Ok(()) => Ok(
            GamePlayed {
                player: ctx.player,
                game_type: 1,
                bet_amount,
                prediction,
                result,
                won,
                payout,
                timestamp,
            },
        ),
        Err(e) => Err(e),
    }
}

/// The three reels a slots bet derives, from the seed and the first
/// three player-identity bytes.
pub open spec fn reels_spec(st: PlayGame, seed: u64) -> (u8, u8, u8) {
    (reel_spec(seed, st.player[0]), reel_spec(seed, st.player[1]), reel_spec(seed, st.player[2]))
}

/// Whether a slots bet wins: the reels carry a nonzero multiplier.
pub open spec fn slots_won_spec(st: PlayGame, seed: u64) -> bool {
    slots_multiplier_spec(reels_spec(st, seed).0, reels_spec(st, seed).1, reels_spec(st, seed).2)
        > 0
}

/// The payout a slots bet disburses: stake times the reel multiplier —
/// zero exactly on a loss.
pub open spec fn slots_paid_spec(st: PlayGame, bet: u64, seed: u64) -> u64 {
    (slots_payout_spec(bet, reels_spec(st, seed).0, reels_spec(st, seed).1, reels_spec(st, seed).2)
        as u64)
}

/// The published slots result byte: the three reels packed in decimal,
/// `reel1 * 100 + reel2 * 10 + reel3`, truncated to a byte exactly as
/// the record's single result field truncates it.
pub open spec fn slots_result_code_spec(r1: u8, r2: u8, r3: u8) -> u8 {
    (((r1 as int) * 100 + (r2 as int) * 10 + (r3 as int)) % 256) as u8
}

/// The first rejection a slots bet meets, if any: both stake bounds in
/// one combined step, a winning payout product beyond the 64-bit range,
/// then settlement.
pub open spec fn slots_error_spec(st: PlayGame, bet: u64, seed: u64) -> Option<ErrorCode> {
    if bet < st.casino.min_bet || bet > st.casino.max_bet {
        Some(ErrorCode::InvalidBetAmount)
    } else if bet * slots_multiplier_spec(
        reels_spec(st, seed).0,
        reels_spec(st, seed).1,
        reels_spec(st, seed).2,
    ) > u64::MAX {
        Some(ErrorCode::Overflow)
    } else {
        settlement_error_spec(st, bet, slots_won_spec(st, seed), slots_paid_spec(st, bet, seed))
    }
}

/// The outcome record an accepted slots bet publishes. Slots take no
/// prediction; the record carries zero in that field.
pub open spec fn slots_event_spec(st: PlayGame, bet: u64, seed: u64, timestamp: i64) -> GamePlayed {
    GamePlayed {
        player: st.player,
        game_type: 2,
        bet_amount: bet,
        prediction: 0,
        result: slots_result_code_spec(
            reels_spec(st, seed).0,
            reels_spec(st, seed).1,
            reels_spec(st, seed).2,
        ),
        won: slots_won_spec(st, seed),
        payout: slots_paid_spec(st, bet, seed),
        timestamp,
    }
}

/// Place a slots bet: three reels in `{0, .., 9}` are derived from the
/// seed and the first three player-identity bytes; three sevens pay 25x
/// the stake, any other three of a kind 10x, exactly two matching reels
/// 2x, anything else nothing.
pub fn play_slots(ctx: &mut PlayGame, bet_amount: u64, seed: u64, timestamp: i64) -> (r: Result<
    GamePlayed,
    ErrorCode,
>)
    ensures
        match slots_error_spec(*old(ctx), bet_amount, seed) {
            Some(e) => r == Err::<GamePlayed, ErrorCode>(e),
            None => r == Ok::<GamePlayed, ErrorCode>(
                slots_event_spec(*old(ctx), bet_amount, seed, timestamp),
            ) && *final(ctx) == settled_state_spec(
                *old(ctx),
                bet_amount,
                slots_paid_spec(*old(ctx), bet_amount, seed),
            ),
        },
        // A rejected bet moves no funds and changes nothing.
        r is Err ==> *final(ctx) == *old(ctx),
        // Each accepted bet counts its stake into `total_wagered` exactly once.
        r is Ok ==> final(ctx).casino.total_wagered == old(ctx).casino.total_wagered
            + bet_amount,
        // A losing bet pays exactly zero and leaves `total_payout` unchanged.
        r matches Ok(ev) ==> (!ev.won ==> ev.payout == 0 && final(ctx).casino.total_payout
            == old(ctx).casino.total_payout),
        // Stake in and payout out never desynchronize the two balances.
        r is Ok ==> final(ctx).player_balance + final(ctx).vault_balance == old(
            ctx,
        ).player_balance + old(ctx).vault_balance,
        // Totals only ever grow; parameters and identities never change.
        final(ctx).casino.total_wagered >= old(ctx).casino.total_wagered,
        final(ctx).casino.total_payout >= old(ctx).casino.total_payout,
        final(ctx).casino.authority == old(ctx).casino.authority,
        final(ctx).casino.vault_bump == old(ctx).casino.vault_bump,
        final(ctx).casino.house_edge == old(ctx).casino.house_edge,
        final(ctx).casino.min_bet == old(ctx).casino.min_bet,
        final(ctx).casino.max_bet == old(ctx).casino.max_bet,
        final(ctx).player == old(ctx).player,
{
    if bet_amount < ctx.casino.min_bet || bet_amount > ctx.casino.max_bet {
        return Err(ErrorCode::InvalidBetAmount);
    }
    let reel1 = reel(seed, ctx.player[0]);
    let reel2 = reel(seed, ctx.player[1]);
    let reel3 = reel(seed, ctx.player[2]);
    let multiplier = slots_multiplier(reel1, reel2, reel3);
    let won = multiplier > 0;
    let payout: u64 = match slots_payout(bet_amount, reel1, reel2, reel3) {
        Some(p) => p,
        None => {
            return Err(ErrorCode::Overflow);
        },
    };
    let result = slots_result_code(reel1, reel2, reel3);
    match settle(ctx, bet_amount, won, payout) {
        Ok(()) => Ok(
            GamePlayed {
                player: ctx.player,
                game_type: 2,
                bet_amount,
                prediction: 0,
                result,
                won,
                payout,
                timestamp,
            },
        ),
        Err(e) => Err(e),
    }
}

/// Pack the three reels into the single result byte of the outcome
/// record.
fn slots_result_code(r1: u8, r2: u8, r3: u8) -> (r: u8)
    requires
        r1 < 10,
        r2 < 10,
        r3 < 10,
    ensures
        r == slots_result_code_spec(r1, r2, r3),
{
    ((((r1 as u64) * 100 + (r2 as u64) * 10 + (r3 as u64)) % 256) as u8)
}

/// The first rejection a funding request meets, if any: the caller must
/// be the bound authority, the caller's balance must cover the amount,
/// and the vault balance must not outgrow the 64-bit range.
pub open spec fn fund_vault_error_spec(st: FundVault, amount: u64) -> Option<ErrorCode> {
    if !same_identity(st.authority, st.casino.authority) {
        Some(ErrorCode::Unauthorized)
    } else if st.authority_balance < amount {
        Some(ErrorCode::InsufficientFunds)
    } else if st.vault_balance + amount > u64::MAX {
        Some(ErrorCode::Overflow)
    } else {
        None
    }
}

/// Move `amount` from the authority's balance into the vault.
///
/// Only the bound authority may fund the vault; no outcome is derived,
/// no payout is made, and the configuration record — totals included —
/// does not change.
pub fn fund_vault(ctx: &mut FundVault, amount: u64) -> (r: Result<(), ErrorCode>)
    ensures
        match fund_vault_error_spec(*old(ctx), amount) {
            Some(e) => r == Err::<(), ErrorCode>(e) && *final(ctx) == *old(ctx),
            None => r == Ok::<(), ErrorCode>(()) && final(ctx).vault_balance == old(ctx).vault_balance + amount && final(ctx).authority_balance == old(ctx).authority_balance - amount && final(ctx).casino == old(ctx).casino && final(ctx).authority == old(ctx).authority,
        },
        r is Err ==> *final(ctx) == *old(ctx),
{
    if !identities_equal(&ctx.authority, &ctx.casino.authority) {
        return Err(ErrorCode::Unauthorized);
    }
    if ctx.authority_balance < amount {
        return Err(ErrorCode::InsufficientFunds);
    }
    let new_vault = match ctx.vault_balance.checked_add(amount) {
        Some(v) => v,
        None => {
            return Err(ErrorCode::Overflow);
        },
    };
    ctx.authority_balance = ctx.authority_balance - amount;
    ctx.vault_balance = new_vault;
    Ok(())
}

} // verus!
