use ppt2::account::{
    initialize, make_play, make_play_with, pay_for_plays, withdraw_treasury, GameState,
    GAME_STATE_LEN, MAX_HISTORY, PAYMENT_LAMPORTS, PLAYS_PER_PAYMENT,
};
use ppt2::error::ErrorCode;
use ppt2::outcome::MatchResult;

#[test]
fn account_constants() {
    assert_eq!(MAX_HISTORY, 500);
    assert_eq!(PLAYS_PER_PAYMENT, 5);
    assert_eq!(PAYMENT_LAMPORTS, 10_000_000);
    assert_eq!(GAME_STATE_LEN, 1553);
}

#[test]
fn initialize_starts_from_nothing() {
    let state = initialize([3u8; 32]);
    assert_eq!(
        state,
        GameState {
            player: [3u8; 32],
            plays_left: 0,
            last_paid_slot: 0,
            score: 0,
            history: Vec::new(),
        }
    );
}

#[test]
fn state_is_well_formed_up_to_its_bound() {
    let mut state = initialize([3u8; 32]);
    assert!(state.is_wf());
    let played = MatchResult { player_choice: 0, program_choice: 0, result: 1 };
    state.history = vec![played; 500];
    assert!(state.is_wf());
    state.history.push(played);
    assert!(!state.is_wf());
}

#[test]
fn play_without_paid_plays_is_refused() {
    let mut state = initialize([3u8; 32]);
    let before = state.clone();
    assert_eq!(make_play_with(&mut state, 0, 2), Err(ErrorCode::NoPlaysLeft));
    assert_eq!(make_play(&mut state, 0, 1), Err(ErrorCode::NoPlaysLeft));
    assert_eq!(make_play_with(&mut state, 9, 2), Err(ErrorCode::NoPlaysLeft));
    assert_eq!(state, before);
}

#[test]
fn payment_grants_five_plays() {
    let mut state = initialize([3u8; 32]);
    pay_for_plays(&mut state, 42);
    assert_eq!(state.plays_left, 5);
    assert_eq!(state.last_paid_slot, 42);
    pay_for_plays(&mut state, 43);
    assert_eq!(state.plays_left, 10);
    assert_eq!(state.last_paid_slot, 43);
    assert_eq!(state.score, 0);
    assert!(state.history.is_empty());
    assert_eq!(state.player, [3u8; 32]);
}

#[test]
fn payment_up_to_the_limit_of_the_counter() {
    let mut state = initialize([3u8; 32]);
    state.plays_left = 250;
    pay_for_plays(&mut state, 1);
    assert_eq!(state.plays_left, 255);
}

#[test]
fn paid_play_uses_one_play_and_records_the_match() {
    let mut state = initialize([3u8; 32]);
    pay_for_plays(&mut state, 42);
    let played = make_play_with(&mut state, 1, 0).unwrap();
    assert_eq!(played, MatchResult { player_choice: 1, program_choice: 0, result: 2 });
    assert_eq!(state.plays_left, 4);
    assert_eq!(state.score, 2);
    assert_eq!(state.history, vec![played]);
    assert_eq!(state.last_paid_slot, 42);
}

#[test]
fn paid_play_with_derived_move() {
    // With an identity of 32 sevens, slot 1 derives scissors and slot 4 rock.
    let mut state = initialize([7u8; 32]);
    pay_for_plays(&mut state, 0);
    let played = make_play(&mut state, 0, 1).unwrap();
    assert_eq!(played, MatchResult { player_choice: 0, program_choice: 2, result: 2 });
    let played = make_play(&mut state, 1, 4).unwrap();
    assert_eq!(played, MatchResult { player_choice: 1, program_choice: 0, result: 2 });
    assert_eq!(state.score, 4);
    assert_eq!(state.plays_left, 3);
}

#[test]
fn plays_run_out_after_five() {
    let mut state = initialize([3u8; 32]);
    pay_for_plays(&mut state, 1);
    for _ in 0..5 {
        make_play_with(&mut state, 2, 2).unwrap();
    }
    assert_eq!(state.plays_left, 0);
    assert_eq!(state.score, 5);
    assert_eq!(make_play_with(&mut state, 2, 2), Err(ErrorCode::NoPlaysLeft));
    assert_eq!(state.history.len(), 5);
}

#[test]
fn invalid_move_keeps_the_paid_play() {
    let mut state = initialize([3u8; 32]);
    pay_for_plays(&mut state, 1);
    let before = state.clone();
    assert_eq!(make_play_with(&mut state, 3, 0), Err(ErrorCode::InvalidMove));
    assert_eq!(make_play(&mut state, 200, 9), Err(ErrorCode::InvalidMove));
    assert_eq!(state, before);
}

#[test]
fn overflow_keeps_the_paid_play() {
    let mut state = initialize([3u8; 32]);
    pay_for_plays(&mut state, 1);
    state.score = u64::MAX;
    let before = state.clone();
    assert_eq!(make_play_with(&mut state, 0, 2), Err(ErrorCode::ScoreOverflow));
    assert_eq!(state, before);
}

#[test]
fn account_history_is_capped_at_five_hundred() {
    let mut state = initialize([3u8; 32]);
    let mut expected: Vec<MatchResult> = Vec::new();
    for n in 0u32..520 {
        if state.plays_left == 0 {
            pay_for_plays(&mut state, n as u64);
        }
        let played = make_play_with(&mut state, (n % 3) as u8, ((n / 5) % 3) as u8).unwrap();
        expected.push(played);
        assert_eq!(state.history.len() as u32, (n + 1).min(500));
    }
    assert_eq!(state.history.len(), 500);
    assert_eq!(state.history[..], expected[20..]);
    assert_eq!(state.history[499], expected[519]);
    assert_eq!(state.history[0], expected[20]);
}

#[test]
fn withdrawal_moves_the_amount() {
    let mut treasury = 1_000u64;
    let mut admin = 5u64;
    withdraw_treasury(&mut treasury, &mut admin, 400);
    assert_eq!((treasury, admin), (600, 405));
    withdraw_treasury(&mut treasury, &mut admin, 600);
    assert_eq!((treasury, admin), (0, 1005));
    withdraw_treasury(&mut treasury, &mut admin, 0);
    assert_eq!((treasury, admin), (0, 1005));
}
