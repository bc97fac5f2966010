use ppt2::error::ErrorCode;
use ppt2::outcome::{resolve, MatchResult, Resolution, DRAW, LOSS, PAPER, ROCK, SCISSORS, WIN};

#[test]
fn constants_have_their_wire_values() {
    assert_eq!((ROCK, PAPER, SCISSORS), (0, 1, 2));
    assert_eq!((LOSS, DRAW, WIN), (0, 1, 2));
}

#[test]
fn equal_moves_draw_for_one_point() {
    for choice in 0u8..3 {
        assert_eq!(resolve(choice, choice), Resolution { result: DRAW, score_delta: 1 });
    }
}

#[test]
fn rock_beats_scissors() {
    assert_eq!(resolve(ROCK, SCISSORS), Resolution { result: WIN, score_delta: 2 });
    assert_eq!(resolve(SCISSORS, ROCK), Resolution { result: LOSS, score_delta: 0 });
}

#[test]
fn scissors_beats_paper() {
    assert_eq!(resolve(SCISSORS, PAPER), Resolution { result: WIN, score_delta: 2 });
    assert_eq!(resolve(PAPER, SCISSORS), Resolution { result: LOSS, score_delta: 0 });
}

#[test]
fn paper_beats_rock() {
    assert_eq!(resolve(PAPER, ROCK), Resolution { result: WIN, score_delta: 2 });
    assert_eq!(resolve(ROCK, PAPER), Resolution { result: LOSS, score_delta: 0 });
}

#[test]
fn full_result_table() {
    let expected: [[u8; 3]; 3] = [[1, 0, 2], [2, 1, 0], [0, 2, 1]];
    for player in 0u8..3 {
        for program in 0u8..3 {
            let r = resolve(player, program);
            assert_eq!(r.result, expected[player as usize][program as usize]);
            assert_eq!(r.score_delta, r.result as u64);
        }
    }
}

#[test]
fn swapping_the_moves_mirrors_the_result() {
    for a in 0u8..3 {
        for b in 0u8..3 {
            let forward = resolve(a, b).result;
            let backward = resolve(b, a).result;
            match forward {
                WIN => assert_eq!(backward, LOSS),
                LOSS => assert_eq!(backward, WIN),
                _ => assert_eq!(backward, DRAW),
            }
            assert_eq!(forward + backward, 2);
        }
    }
}

#[test]
fn match_results_compare_by_fields() {
    let a = MatchResult { player_choice: 0, program_choice: 2, result: 2 };
    let b = a;
    assert_eq!(a, b);
    assert_ne!(a, MatchResult { player_choice: 0, program_choice: 2, result: 1 });
}

#[test]
fn every_error_has_its_message() {
    assert_eq!(ErrorCode::NoPlaysLeft.message(), "No plays left. Please pay to get more plays.");
    assert_eq!(ErrorCode::Unauthorized.message(), "Unauthorized to perform this action.");
    assert_eq!(
        ErrorCode::InvalidMove.message(),
        "Invalid move. Choose 0 (rock), 1 (paper) or 2 (scissors)."
    );
    assert_eq!(
        ErrorCode::CorruptRecord.message(),
        "Stored record does not match the expected layout."
    );
    assert_eq!(ErrorCode::ScoreOverflow.message(), "Score overflow.");
}
