//! The pay-per-play account: a record with a growable history and a balance
//! of paid plays.

use crate::entropy::{build_seed, derive_program_choice, entropy_seed, program_choice};
use crate::error::ErrorCode;
use crate::game::play_step;
use crate::history::append;
use crate::outcome::{match_of, resolve, score_delta, MatchResult};
use crate::provisioning::KEY_SIZE;
use crate::record::GameRecord;
use vstd::prelude::*;

verus! {

/// Most matches that an account keeps.
pub const MAX_HISTORY: usize = 500;

/// Plays granted by one payment.
pub const PLAYS_PER_PAYMENT: u8 = 5;

/// Price of one payment, in lamports.
pub const PAYMENT_LAMPORTS: u64 = 10_000_000;

/// Most bytes that a stored account takes: the identity, the plays left, the
/// slot of the last payment, the score, and a length-prefixed history at its
/// full size.
pub const GAME_STATE_LEN: usize = 32 + 1 + 8 + 8 + (4 + 500 * (1 + 1 + 1));

/// The state kept for one player.
#[derive(Clone, Debug, PartialEq, Eq)]
pub struct GameState {
    pub player: [u8; KEY_SIZE],
    pub plays_left: u8,
    pub last_paid_slot: u64,
    pub score: u64,
    pub history: Vec<MatchResult>,
}

impl GameState {
    /// The history is within its bound.
    pub open spec fn wf(&self) -> bool {
        self.history@.len() <= MAX_HISTORY
    }

    /// The score and the matches kept.
    pub open spec fn record(&self) -> GameRecord {
        GameRecord { score: self.score, history: self.history@ }
    }

    /// Tests whether the state is well formed.
    pub fn is_wf(&self) -> (ok: bool)
        ensures
            ok == self.wf(),
    {
        self.history.len() <= MAX_HISTORY
    }
}

/// What a play does to the record of an account with `plays_left` paid plays:
/// without any left it is refused, otherwise it is an ordinary play on a
/// history bounded by `MAX_HISTORY`.
pub open spec fn paid_play_step(
    plays_left: u8,
    record: GameRecord,
    player_move: u8,
    program_move: u8,
) -> Result<GameRecord, ErrorCode> {
    if plays_left == 0 {
        Err(ErrorCode::NoPlaysLeft)
    } else {
        play_step(record, MAX_HISTORY as nat, player_move, program_move)
    }
}

/// The state of a player who has not paid or played yet.
pub fn initialize(player: [u8; KEY_SIZE]) -> (game_state: GameState)
    ensures
        game_state.wf(),
        game_state.player == player,
        game_state.plays_left == 0,
        game_state.last_paid_slot == 0,
        game_state.score == 0,
        game_state.history@ == Seq::<MatchResult>::empty(),
{
    GameState { player, plays_left: 0, last_paid_slot: 0, score: 0, history: Vec::new() }
}

/// Plays one round against a given program move and uses up one paid play.
/// On refusal the state is untouched.
pub fn make_play_with(game_state: &mut GameState, player_move: u8, program_move: u8) -> (r:
    Result<MatchResult, ErrorCode>)
    requires
        old(game_state).wf(),
    ensures
        final(game_state).wf(),
        (match r {
            Ok(played) => {
                &&& paid_play_step(
                    old(game_state).plays_left,
                    old(game_state).record(),
                    player_move,
                    program_move,
                ) == Ok::<GameRecord, ErrorCode>(final(game_state).record())
                &&& played == match_of(player_move, program_move)
                &&& final(game_state).plays_left == old(game_state).plays_left - 1
                &&& final(game_state).score == old(game_state).score + score_delta(played.result)
                &&& final(game_state).player == old(game_state).player
                &&& final(game_state).last_paid_slot == old(game_state).last_paid_slot
            },
            Err(e) => {
                &&& paid_play_step(
                    old(game_state).plays_left,
                    old(game_state).record(),
                    player_move,
                    program_move,
                ) == Err::<GameRecord, ErrorCode>(e)
                &&& *final(game_state) == *old(game_state)
            },
        }),
{
    if game_state.plays_left == 0 {
        return Err(ErrorCode::NoPlaysLeft);
    }
    if player_move > 2 || program_move > 2 {
        return Err(ErrorCode::InvalidMove);
    }
    let resolution = resolve(player_move, program_move);
    let score = match game_state.score.checked_add(resolution.score_delta) {
        Some(score) => score,
        None => {
            return Err(ErrorCode::ScoreOverflow);
        },
    };
    let played = MatchResult {
        player_choice: player_move,
        program_choice: program_move,
        result: resolution.result,
    };
    game_state.plays_left -= 1;
    game_state.score = score;
    append(&mut game_state.history, MAX_HISTORY, played);
    Ok(played)
}

/// Plays one round. The program's move is derived from the slot and the
/// player's identity; the rest is `make_play_with`.
pub fn make_play(game_state: &mut GameState, player_move: u8, slot: u64) -> (r: Result<
    MatchResult,
    ErrorCode,
>)
    requires
        old(game_state).wf(),
    ensures
        final(game_state).wf(),
        (match r {
            Ok(played) => {
                &&& paid_play_step(
                    old(game_state).plays_left,
                    old(game_state).record(),
                    player_move,
                    program_choice(entropy_seed(slot, old(game_state).player@)),
                ) == Ok::<GameRecord, ErrorCode>(final(game_state).record())
                &&& played == match_of(
                    player_move,
                    program_choice(entropy_seed(slot, old(game_state).player@)),
                )
                &&& final(game_state).plays_left == old(game_state).plays_left - 1
                &&& final(game_state).score == old(game_state).score + score_delta(played.result)
                &&& final(game_state).player == old(game_state).player
                &&& final(game_state).last_paid_slot == old(game_state).last_paid_slot
            },
            Err(e) => {
                &&& paid_play_step(
                    old(game_state).plays_left,
                    old(game_state).record(),
                    player_move,
                    program_choice(entropy_seed(slot, old(game_state).player@)),
                ) == Err::<GameRecord, ErrorCode>(e)
                &&& *final(game_state) == *old(game_state)
            },
        }),
{
    let seed = build_seed(slot, game_state.player.as_slice());
    let program_move = derive_program_choice(seed.as_slice());
    make_play_with(game_state, player_move, program_move)
}

/// Grants the plays of one payment and notes the slot in which it was made.
/// The payment itself is the caller's business.
pub fn pay_for_plays(game_state: &mut GameState, slot: u64)
    requires
        old(game_state).plays_left + PLAYS_PER_PAYMENT <= u8::MAX,
    ensures
        final(game_state).plays_left == old(game_state).plays_left + PLAYS_PER_PAYMENT,
        final(game_state).last_paid_slot == slot,
        final(game_state).player == old(game_state).player,
        final(game_state).score == old(game_state).score,
        final(game_state).history == old(game_state).history,
{
    game_state.plays_left += PLAYS_PER_PAYMENT;
    game_state.last_paid_slot = slot;
}

/// Moves `amount` from the treasury's balance to the administrator's.
pub fn withdraw_treasury(treasury: &mut u64, admin: &mut u64, amount: u64)
    requires
        amount <= *old(treasury),
        *old(admin) + amount <= u64::MAX,
    ensures
        *final(treasury) == *old(treasury) - amount,
        *final(admin) == *old(admin) + amount,
        *final(treasury) + *final(admin) == *old(treasury) + *old(admin),
{
    *treasury -= amount;
    *admin += amount;
}

} // verus!
