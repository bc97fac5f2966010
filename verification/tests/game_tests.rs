use ppt2::entropy::build_seed;
use ppt2::error::ErrorCode;
use ppt2::game::play;
use ppt2::outcome::{resolve, MatchResult};
use ppt2::record::GameData;

#[test]
fn rock_against_scissors_on_an_empty_record() {
    let mut record = GameData::new();
    let played = record.play_with(0, 2).unwrap();
    assert_eq!(played, MatchResult { player_choice: 0, program_choice: 2, result: 2 });
    assert_eq!(record.score, 2);
    assert_eq!(
        record.entries(),
        vec![MatchResult { player_choice: 0, program_choice: 2, result: 2 }]
    );
}

#[test]
fn rock_against_derived_scissors_on_an_empty_record() {
    // With an identity of 32 sevens, slot 1 derives scissors.
    let seed = build_seed(1, &[7u8; 32]);
    let mut record = GameData::new();
    let played = play(&mut record, 0, &seed).unwrap();
    assert_eq!(played, MatchResult { player_choice: 0, program_choice: 2, result: 2 });
    assert_eq!(record.score, 2);
    assert_eq!(record.history_len, 1);
    assert_eq!(record.history[0], [0, 2, 2]);
}

#[test]
fn derived_move_depends_on_the_seed() {
    let payer = [7u8; 32];
    let mut record = GameData::new();
    // Slot 0 derives paper, slot 4 derives rock, slot 7 derives scissors.
    assert_eq!(play(&mut record, 0, &build_seed(0, &payer)).unwrap().program_choice, 1);
    assert_eq!(play(&mut record, 0, &build_seed(4, &payer)).unwrap().program_choice, 0);
    assert_eq!(play(&mut record, 0, &build_seed(7, &payer)).unwrap().program_choice, 2);
    assert_eq!(
        record.entries(),
        vec![
            MatchResult { player_choice: 0, program_choice: 1, result: 0 },
            MatchResult { player_choice: 0, program_choice: 0, result: 1 },
            MatchResult { player_choice: 0, program_choice: 2, result: 2 },
        ]
    );
    assert_eq!(record.score, 3);
}

#[test]
fn invalid_player_move_is_refused() {
    let mut record = GameData::new();
    record.play_with(1, 0).unwrap();
    let before = record;
    assert_eq!(record.play_with(5, 0), Err(ErrorCode::InvalidMove));
    assert_eq!(record.play_with(3, 2), Err(ErrorCode::InvalidMove));
    assert_eq!(record.play_with(255, 1), Err(ErrorCode::InvalidMove));
    assert_eq!(play(&mut record, 5, b"seed"), Err(ErrorCode::InvalidMove));
    assert_eq!(record, before);
}

#[test]
fn invalid_program_move_is_refused() {
    let mut record = GameData::new();
    let before = record;
    assert_eq!(record.play_with(0, 3), Err(ErrorCode::InvalidMove));
    assert_eq!(record, before);
}

#[test]
fn win_at_maximal_score_overflows() {
    let mut record = GameData::new();
    record.score = u64::MAX;
    let before = record;
    assert_eq!(record.play_with(0, 2), Err(ErrorCode::ScoreOverflow));
    assert_eq!(record, before);
    assert_eq!(play(&mut record, 0, &build_seed(1, &[7u8; 32])), Err(ErrorCode::ScoreOverflow));
    assert_eq!(record, before);
}

#[test]
fn draw_at_maximal_score_overflows_and_loss_does_not() {
    let mut record = GameData::new();
    record.score = u64::MAX;
    assert_eq!(record.play_with(1, 1), Err(ErrorCode::ScoreOverflow));
    let played = record.play_with(0, 1).unwrap();
    assert_eq!(played.result, 0);
    assert_eq!(record.score, u64::MAX);
    assert_eq!(record.history_len, 1);
}

#[test]
fn score_reaches_the_maximum_exactly() {
    let mut record = GameData::new();
    record.score = u64::MAX - 2;
    record.play_with(0, 2).unwrap();
    assert_eq!(record.score, u64::MAX);
    let mut record = GameData::new();
    record.score = u64::MAX - 1;
    assert_eq!(record.play_with(0, 2), Err(ErrorCode::ScoreOverflow));
    record.play_with(2, 2).unwrap();
    assert_eq!(record.score, u64::MAX);
}

#[test]
fn score_is_the_sum_of_the_deltas_and_never_decreases() {
    let mut record = GameData::new();
    let mut expected = 0u64;
    for n in 0u32..300 {
        let player = (n % 3) as u8;
        let program = ((n / 3 + n / 7) % 3) as u8;
        let before = record.score;
        let played = record.play_with(player, program).unwrap();
        expected += resolve(player, program).score_delta;
        assert_eq!(played.result, resolve(player, program).result);
        assert_eq!(record.score, expected);
        assert!(record.score >= before);
        assert_eq!(record.history_len as u32, (n + 1).min(200));
    }
}

#[test]
fn refused_plays_are_not_counted() {
    let mut record = GameData::new();
    record.play_with(0, 2).unwrap();
    assert_eq!(record.play_with(9, 2), Err(ErrorCode::InvalidMove));
    record.play_with(1, 1).unwrap();
    assert_eq!(record.history_len, 2);
    assert_eq!(record.score, 3);
}

#[test]
fn play_on_a_full_record_slides_the_window() {
    let mut record = GameData::new();
    for n in 0u32..200 {
        record.play_with((n % 3) as u8, 0).unwrap();
    }
    let oldest_but_one = record.entries()[1];
    let played = record.play_with(2, 1).unwrap();
    assert_eq!(record.history_len, 200);
    let entries = record.entries();
    assert_eq!(entries[199], played);
    assert_eq!(entries[199], MatchResult { player_choice: 2, program_choice: 1, result: 2 });
    assert_eq!(entries[0], oldest_but_one);
    assert_eq!(entries[0], MatchResult { player_choice: 1, program_choice: 0, result: 2 });
}
