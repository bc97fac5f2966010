//! The outcome resolver: who wins a round, and what the round is worth.

use vstd::prelude::*;

verus! {

/// The move "rock".
pub const ROCK: u8 = 0;

/// The move "paper".
pub const PAPER: u8 = 1;

/// The move "scissors".
pub const SCISSORS: u8 = 2;

/// The player lost the round.
pub const LOSS: u8 = 0;

/// Both sides chose the same move.
pub const DRAW: u8 = 1;

/// The player won the round.
pub const WIN: u8 = 2;

/// One resolved round: the two moves and the result for the player.
#[derive(Clone, Copy, Debug, PartialEq, Eq, Structural)]
pub struct MatchResult {
    pub player_choice: u8,
    pub program_choice: u8,
    pub result: u8,
}

/// What a round yields: the result for the player and the points it adds.
#[derive(Clone, Copy, Debug, PartialEq, Eq, Structural)]
pub struct Resolution {
    pub result: u8,
    pub score_delta: u64,
}

/// A move is rock, paper or scissors.
pub open spec fn valid_choice(choice: u8) -> bool {
    choice == ROCK || choice == PAPER || choice == SCISSORS
}

/// Cyclic dominance: rock beats scissors, scissors beats paper, paper beats
/// rock.
pub open spec fn beats(a: u8, b: u8) -> bool {
    ||| a == ROCK && b == SCISSORS
    ||| a == SCISSORS && b == PAPER
    ||| a == PAPER && b == ROCK
}

/// The result of a round for the player.
pub open spec fn outcome(player_choice: u8, program_choice: u8) -> u8 {
    if player_choice == program_choice {
        DRAW
    } else if beats(player_choice, program_choice) {
        WIN
    } else {
        LOSS
    }
}

/// The points a result adds to the score: two for a win, one for a draw,
/// none for a loss.
pub open spec fn score_delta(result: u8) -> u64 {
    if result == WIN {
        2
    } else if result == DRAW {
        1
    } else {
        0
    }
}

/// The same round seen from the other side: a win becomes a loss, a loss a
/// win, and a draw stays a draw.
pub open spec fn mirrored(result: u8) -> u8 {
    if result == WIN {
        LOSS
    } else if result == LOSS {
        WIN
    } else {
        result
    }
}

/// The entry that records a round between two moves.
pub open spec fn match_of(player_choice: u8, program_choice: u8) -> MatchResult {
    MatchResult { player_choice, program_choice, result: outcome(player_choice, program_choice) }
}

/// Resolves one round between two valid moves.
pub fn resolve(player_choice: u8, program_choice: u8) -> (r: Resolution)
    requires
        valid_choice(player_choice),
        valid_choice(program_choice),
    ensures
        r.result == outcome(player_choice, program_choice),
        r.score_delta == score_delta(r.result),
{
    if player_choice == program_choice {
        Resolution { result: DRAW, score_delta: 1 }
    } else if (player_choice + 3 - program_choice) % 3 == 1 {
        Resolution { result: WIN, score_delta: 2 }
    } else {
        Resolution { result: LOSS, score_delta: 0 }
    }
}

/// The dominance rule as arithmetic on the moves: the player wins exactly
/// when the player's move is one step ahead of the program's move on the
/// cycle rock, paper, scissors.
pub proof fn lemma_outcome_is_cyclic(player_choice: u8, program_choice: u8)
    requires
        valid_choice(player_choice),
        valid_choice(program_choice),
    ensures
        outcome(player_choice, program_choice) == WIN <==> (player_choice + 3 - program_choice) % 3
            == 1,
        outcome(player_choice, program_choice) == DRAW <==> (player_choice + 3 - program_choice)
            % 3 == 0,
        outcome(player_choice, program_choice) == LOSS <==> (player_choice + 3 - program_choice)
            % 3 == 2,
{
}

/// Swapping the two moves of a round mirrors its result: a win and a loss
/// change places, a draw stays.
pub proof fn lemma_outcome_antisymmetric(a: u8, b: u8)
    requires
        valid_choice(a),
        valid_choice(b),
    ensures
        outcome(b, a) == mirrored(outcome(a, b)),
        outcome(a, b) == DRAW <==> a == b,
        outcome(a, b) == WIN <==> outcome(b, a) == LOSS,
{
}

} // verus!
