use casino::engine::{fund_vault, initialize, play_coin_flip, play_dice_roll, play_slots};
use casino::errors::ErrorCode;
use casino::state::{Casino, FundVault, GamePlayed, Initialize, PlayGame};

fn authority_id() -> [u8; 32] {
    let mut id = [0u8; 32];
    id[0] = 0xAA;
    id
}

fn base_casino() -> Casino {
    Casino {
        authority: authority_id(),
        vault_bump: 254,
        total_wagered: 0,
        total_payout: 0,
        house_edge: 250,
        min_bet: 10_000_000,
        max_bet: 10_000_000_000,
    }
}

fn play_state(player: [u8; 32]) -> PlayGame {
    PlayGame {
        casino: base_casino(),
        vault_balance: 100_000_000_000,
        player,
        player_balance: 20_000_000_000,
    }
}

fn player_with_bytes(b0: u8, b1: u8, b2: u8) -> [u8; 32] {
    let mut id = [0u8; 32];
    id[0] = b0;
    id[1] = b1;
    id[2] = b2;
    id
}

#[test]
fn initialize_creates_the_record() {
    let mut ctx = Initialize { casino: None, authority: authority_id() };
    let r = initialize(&mut ctx, 254);
    assert_eq!(r, Ok(()));
    let casino = ctx.casino.expect("record created");
    assert_eq!(casino.authority, authority_id());
    assert_eq!(casino.vault_bump, 254);
    assert_eq!(casino.total_wagered, 0);
    assert_eq!(casino.total_payout, 0);
    assert_eq!(casino.house_edge, 250);
    assert_eq!(casino.min_bet, 10_000_000);
    assert_eq!(casino.max_bet, 10_000_000_000);
}

#[test]
fn initialize_rejects_a_second_run() {
    let mut ctx = Initialize { casino: None, authority: authority_id() };
    assert_eq!(initialize(&mut ctx, 254), Ok(()));
    let before = ctx;
    let other = player_with_bytes(9, 9, 9);
    ctx.authority = other;
    let r = initialize(&mut ctx, 1);
    assert_eq!(r, Err(ErrorCode::AlreadyInitialized));
    assert_eq!(ctx.casino, before.casino);
}

#[test]
fn fund_vault_by_authority_moves_exactly_the_amount() {
    let mut ctx = FundVault {
        casino: base_casino(),
        vault_balance: 500,
        authority: authority_id(),
        authority_balance: 2_000,
    };
    let r = fund_vault(&mut ctx, 1_500);
    assert_eq!(r, Ok(()));
    assert_eq!(ctx.vault_balance, 2_000);
    assert_eq!(ctx.authority_balance, 500);
    assert_eq!(ctx.casino, base_casino());
}

#[test]
fn fund_vault_by_non_authority_is_rejected() {
    let mut ctx = FundVault {
        casino: base_casino(),
        vault_balance: 500,
        authority: player_with_bytes(1, 2, 3),
        authority_balance: 2_000,
    };
    let before = ctx;
    let r = fund_vault(&mut ctx, 1_500);
    assert_eq!(r, Err(ErrorCode::Unauthorized));
    assert_eq!(ctx, before);
}

#[test]
fn fund_vault_needs_funds() {
    let mut ctx = FundVault {
        casino: base_casino(),
        vault_balance: 500,
        authority: authority_id(),
        authority_balance: 100,
    };
    let before = ctx;
    let r = fund_vault(&mut ctx, 1_500);
    assert_eq!(r, Err(ErrorCode::InsufficientFunds));
    assert_eq!(ctx, before);
}

#[test]
fn fund_vault_overflow_is_rejected_whole() {
    let mut ctx = FundVault {
        casino: base_casino(),
        vault_balance: u64::MAX - 10,
        authority: authority_id(),
        authority_balance: 2_000,
    };
    let before = ctx;
    let r = fund_vault(&mut ctx, 100);
    assert_eq!(r, Err(ErrorCode::Overflow));
    assert_eq!(ctx, before);
}

#[test]
fn coin_flip_win_pays_and_counts() {
    // seed 4, byte0 0: outcome (4 xor 0) % 2 = 0; prediction 0 wins.
    let mut st = play_state(player_with_bytes(0, 0, 0));
    let r = play_coin_flip(&mut st, 1_000_000_000, 0, 4, 77);
    let ev = r.expect("accepted bet");
    assert_eq!(
        ev,
        GamePlayed {
            player: player_with_bytes(0, 0, 0),
            game_type: 0,
            bet_amount: 1_000_000_000,
            prediction: 0,
            result: 0,
            won: true,
            payout: 1_950_000_000,
            timestamp: 77,
        }
    );
    assert_eq!(st.casino.total_wagered, 1_000_000_000);
    assert_eq!(st.casino.total_payout, 1_950_000_000);
    assert_eq!(st.player_balance, 20_000_000_000 - 1_000_000_000 + 1_950_000_000);
    assert_eq!(st.vault_balance, 100_000_000_000 + 1_000_000_000 - 1_950_000_000);
}

#[test]
fn coin_flip_loss_pays_zero_and_still_counts_the_stake() {
    // seed 4, byte0 0: outcome 0; prediction 1 loses.
    let mut st = play_state(player_with_bytes(0, 0, 0));
    let r = play_coin_flip(&mut st, 1_000_000_000, 1, 4, 77);
    let ev = r.expect("accepted bet");
    assert!(!ev.won);
    assert_eq!(ev.result, 0);
    assert_eq!(ev.payout, 0);
    assert_eq!(st.casino.total_wagered, 1_000_000_000);
    assert_eq!(st.casino.total_payout, 0);
    assert_eq!(st.player_balance, 20_000_000_000 - 1_000_000_000);
    assert_eq!(st.vault_balance, 100_000_000_000 + 1_000_000_000);
}

#[test]
fn coin_flip_outcome_reproducible_across_identical_bets() {
    let mut first = play_state(player_with_bytes(5, 0, 0));
    let mut second = play_state(player_with_bytes(5, 0, 0));
    let a = play_coin_flip(&mut first, 10_000_000, 1, 12345, 1);
    let b = play_coin_flip(&mut second, 10_000_000, 1, 12345, 1);
    assert_eq!(a, b);
    assert_eq!(first, second);
}

#[test]
fn coin_flip_prediction_two_is_rejected() {
    let mut st = play_state(player_with_bytes(0, 0, 0));
    let before = st;
    let r = play_coin_flip(&mut st, 1_000_000_000, 2, 4, 77);
    assert_eq!(r, Err(ErrorCode::InvalidPrediction));
    assert_eq!(st, before);
}

#[test]
fn coin_flip_accepts_both_bounds_exactly() {
    let mut st = play_state(player_with_bytes(0, 0, 0));
    assert!(play_coin_flip(&mut st, 10_000_000, 0, 4, 77).is_ok());
    let mut st = play_state(player_with_bytes(0, 0, 0));
    assert!(play_coin_flip(&mut st, 10_000_000_000, 0, 4, 77).is_ok());
}

#[test]
fn coin_flip_rejects_one_unit_outside_the_bounds() {
    let mut st = play_state(player_with_bytes(0, 0, 0));
    let before = st;
    assert_eq!(
        play_coin_flip(&mut st, 10_000_000 - 1, 0, 4, 77),
        Err(ErrorCode::BetTooLow)
    );
    assert_eq!(st, before);
    assert_eq!(
        play_coin_flip(&mut st, 10_000_000_000 + 1, 0, 4, 77),
        Err(ErrorCode::BetTooHigh)
    );
    assert_eq!(st, before);
}

#[test]
fn coin_flip_needs_player_funds() {
    let mut st = play_state(player_with_bytes(0, 0, 0));
    st.player_balance = 5_000_000;
    let before = st;
    let r = play_coin_flip(&mut st, 10_000_000, 0, 4, 77);
    assert_eq!(r, Err(ErrorCode::InsufficientFunds));
    assert_eq!(st, before);
}

#[test]
fn coin_flip_overflowing_payout_is_rejected_whole() {
    let mut st = play_state(player_with_bytes(0, 0, 0));
    st.casino.max_bet = u64::MAX;
    st.player_balance = u64::MAX;
    let before = st;
    // seed 4, byte0 0 gives outcome 0: prediction 0 would win, but the
    // payout product cannot be represented.
    let r = play_coin_flip(&mut st, u64::MAX, 0, 4, 77);
    assert_eq!(r, Err(ErrorCode::Overflow));
    assert_eq!(st, before);
}

#[test]
fn coin_flip_underfunded_vault_aborts_the_whole_bet() {
    let mut st = play_state(player_with_bytes(0, 0, 0));
    st.vault_balance = 0;
    let before = st;
    // Winning bet of the minimum stake: payout 19_500_000, vault holds
    // only the stake.
    let r = play_coin_flip(&mut st, 10_000_000, 0, 4, 77);
    assert_eq!(r, Err(ErrorCode::InsufficientFunds));
    assert_eq!(st, before);
}

#[test]
fn coin_flip_totals_overflow_is_rejected_whole() {
    let mut st = play_state(player_with_bytes(0, 0, 0));
    st.casino.total_wagered = u64::MAX;
    let before = st;
    // seed 5, byte0 0: outcome 1; prediction 0 loses, so only the stake
    // total would change — and cannot.
    let r = play_coin_flip(&mut st, 10_000_000, 0, 5, 77);
    assert_eq!(r, Err(ErrorCode::Overflow));
    assert_eq!(st, before);
}

#[test]
fn dice_over_three_pays_one_hundred_ninety_percent() {
    // seed 5, byte0 0: outcome (5 xor 0) % 6 + 1 = 6 > 3 wins.
    let mut st = play_state(player_with_bytes(0, 0, 0));
    let r = play_dice_roll(&mut st, 1_000_000_000, 3, true, 5, 9);
    let ev = r.expect("accepted bet");
    assert_eq!(
        ev,
        GamePlayed {
            player: player_with_bytes(0, 0, 0),
            game_type: 1,
            bet_amount: 1_000_000_000,
            prediction: 3,
            result: 6,
            won: true,
            payout: 1_900_000_000,
            timestamp: 9,
        }
    );
    assert_eq!(st.casino.total_wagered, 1_000_000_000);
    assert_eq!(st.casino.total_payout, 1_900_000_000);
}

#[test]
fn dice_under_mode_wins_below_the_target() {
    // seed 0, byte0 0: outcome 1 < 3 wins; chance 2, multiplier 285.
    let mut st = play_state(player_with_bytes(0, 0, 0));
    let r = play_dice_roll(&mut st, 1_000_000_000, 3, false, 0, 9);
    let ev = r.expect("accepted bet");
    assert!(ev.won);
    assert_eq!(ev.result, 1);
    assert_eq!(ev.payout, 2_850_000_000);
}

#[test]
fn dice_loss_pays_zero_and_still_counts_the_stake() {
    // seed 0, byte0 0: outcome 1; over 3 loses.
    let mut st = play_state(player_with_bytes(0, 0, 0));
    let r = play_dice_roll(&mut st, 1_000_000_000, 3, true, 0, 9);
    let ev = r.expect("accepted bet");
    assert!(!ev.won);
    assert_eq!(ev.payout, 0);
    assert_eq!(st.casino.total_wagered, 1_000_000_000);
    assert_eq!(st.casino.total_payout, 0);
}

#[test]
fn dice_prediction_outside_one_to_six_is_rejected() {
    let mut st = play_state(player_with_bytes(0, 0, 0));
    let before = st;
    assert_eq!(
        play_dice_roll(&mut st, 1_000_000_000, 0, true, 5, 9),
        Err(ErrorCode::InvalidPrediction)
    );
    assert_eq!(
        play_dice_roll(&mut st, 1_000_000_000, 7, true, 5, 9),
        Err(ErrorCode::InvalidPrediction)
    );
    assert_eq!(st, before);
}

#[test]
fn dice_prediction_with_no_winning_outcome_is_rejected() {
    let mut st = play_state(player_with_bytes(0, 0, 0));
    let before = st;
    assert_eq!(
        play_dice_roll(&mut st, 1_000_000_000, 6, true, 5, 9),
        Err(ErrorCode::InvalidPrediction)
    );
    assert_eq!(
        play_dice_roll(&mut st, 1_000_000_000, 1, false, 5, 9),
        Err(ErrorCode::InvalidPrediction)
    );
    assert_eq!(st, before);
}

#[test]
fn dice_bounds_failure_is_one_combined_error() {
    let mut st = play_state(player_with_bytes(0, 0, 0));
    let before = st;
    assert_eq!(
        play_dice_roll(&mut st, 10_000_000 - 1, 3, true, 5, 9),
        Err(ErrorCode::InvalidBetAmount)
    );
    assert_eq!(
        play_dice_roll(&mut st, 10_000_000_000 + 1, 3, true, 5, 9),
        Err(ErrorCode::InvalidBetAmount)
    );
    assert_eq!(st, before);
}

#[test]
fn slots_three_sevens_pay_twenty_five_times() {
    // seed 7 with zero bytes: every reel is 7.
    let mut st = play_state(player_with_bytes(0, 0, 0));
    let r = play_slots(&mut st, 10_000_000, 7, 3);
    let ev = r.expect("accepted bet");
    assert!(ev.won);
    assert_eq!(ev.game_type, 2);
    assert_eq!(ev.prediction, 0);
    assert_eq!(ev.payout, 250_000_000);
    assert_eq!(ev.result, (777u64 % 256) as u8);
    assert_eq!(st.casino.total_payout, 250_000_000);
}

#[test]
fn slots_three_of_a_kind_pays_ten_times() {
    // seed 3 with zero bytes: every reel is 3.
    let mut st = play_state(player_with_bytes(0, 0, 0));
    let r = play_slots(&mut st, 10_000_000, 3, 3);
    let ev = r.expect("accepted bet");
    assert!(ev.won);
    assert_eq!(ev.payout, 100_000_000);
    assert_eq!(ev.result, (333u64 % 256) as u8);
}

#[test]
fn slots_two_of_a_kind_pays_twice() {
    // seed 4, bytes (0, 0, 13): reels (4, 4, 9).
    let mut st = play_state(player_with_bytes(0, 0, 13));
    let r = play_slots(&mut st, 10_000_000, 4, 3);
    let ev = r.expect("accepted bet");
    assert!(ev.won);
    assert_eq!(ev.payout, 20_000_000);
    assert_eq!(ev.result, (449u64 % 256) as u8);
}

#[test]
fn slots_mixed_reels_lose() {
    // seed 1, bytes (0, 3, 2): reels (1, 2, 3).
    let mut st = play_state(player_with_bytes(0, 3, 2));
    let r = play_slots(&mut st, 10_000_000, 1, 3);
    let ev = r.expect("accepted bet");
    assert!(!ev.won);
    assert_eq!(ev.payout, 0);
    assert_eq!(ev.result, 123);
    assert_eq!(st.casino.total_wagered, 10_000_000);
    assert_eq!(st.casino.total_payout, 0);
}

#[test]
fn slots_bounds_failure_is_one_combined_error() {
    let mut st = play_state(player_with_bytes(0, 0, 0));
    let before = st;
    assert_eq!(play_slots(&mut st, 9_999_999, 7, 3), Err(ErrorCode::InvalidBetAmount));
    assert_eq!(play_slots(&mut st, 10_000_000_001, 7, 3), Err(ErrorCode::InvalidBetAmount));
    assert_eq!(st, before);
}

#[test]
fn totals_accumulate_across_bets() {
    let mut st = play_state(player_with_bytes(0, 0, 0));
    // Losing coin flip (seed 5 gives outcome 1, prediction 0).
    play_coin_flip(&mut st, 10_000_000, 0, 5, 1).expect("accepted bet");
    // Winning coin flip (seed 4 gives outcome 0, prediction 0).
    play_coin_flip(&mut st, 10_000_000, 0, 4, 2).expect("accepted bet");
    assert_eq!(st.casino.total_wagered, 20_000_000);
    assert_eq!(st.casino.total_payout, 19_500_000);
}
