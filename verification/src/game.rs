//! The game state manager: one play as a single all-or-nothing step.
//!
//! A play validates the player's move, derives the program's move, resolves
//! the round, adds its points to the score and appends the match to the
//! history. If any step is refused, nothing changes.

use crate::entropy::{derive_program_choice, program_choice};
use crate::error::ErrorCode;
use crate::history::{lemma_ring_extend_recent, min_nat, recent, ring_extend, ring_push};
use crate::outcome::{match_of, outcome, resolve, score_delta, valid_choice, MatchResult};
use crate::record::{GameData, GameRecord, HISTORY_SIZE};
use vstd::prelude::*;

verus! {

/// One play on a record that keeps at most `capacity` matches. A move that is
/// not rock, paper or scissors is refused first; then a score that would
/// leave its range. Otherwise the points of the round are added and the match
/// is appended to the history.
pub open spec fn play_step(
    record: GameRecord,
    capacity: nat,
    player_choice: u8,
    program_choice: u8,
) -> Result<GameRecord, ErrorCode> {
    if !valid_choice(player_choice) || !valid_choice(program_choice) {
        Err(ErrorCode::InvalidMove)
    } else if record.score + score_delta(outcome(player_choice, program_choice)) > u64::MAX {
        Err(ErrorCode::ScoreOverflow)
    } else {
        Ok(
            GameRecord {
                score: (record.score + score_delta(outcome(player_choice, program_choice))) as u64,
                history: ring_push(
                    record.history,
                    capacity,
                    match_of(player_choice, program_choice),
                ),
            },
        )
    }
}

/// The record after an attempted play: the record after the play where it
/// goes through, the record as it was where it is refused.
pub open spec fn after_play(
    record: GameRecord,
    capacity: nat,
    player_choice: u8,
    program_choice: u8,
) -> GameRecord {
    match play_step(record, capacity, player_choice, program_choice) {
        Ok(next) => next,
        Err(_) => record,
    }
}

/// The record after a run of attempted plays, each given as the player's and
/// the program's move.
pub open spec fn after_plays(record: GameRecord, capacity: nat, rounds: Seq<(u8, u8)>) -> GameRecord
    decreases rounds.len(),
{
    if rounds.len() == 0 {
        record
    } else {
        after_play(
            after_plays(record, capacity, rounds.drop_last()),
            capacity,
            rounds.last().0,
            rounds.last().1,
        )
    }
}

/// The rounds of a run that went through, in order of play.
pub open spec fn accepted_rounds(record: GameRecord, capacity: nat, rounds: Seq<(u8, u8)>) -> Seq<
    (u8, u8),
>
    decreases rounds.len(),
{
    if rounds.len() == 0 {
        Seq::empty()
    } else {
        let earlier = accepted_rounds(record, capacity, rounds.drop_last());
        let before = after_plays(record, capacity, rounds.drop_last());
        if play_step(before, capacity, rounds.last().0, rounds.last().1) is Ok {
            earlier.push(rounds.last())
        } else {
            earlier
        }
    }
}

/// The points that a run of rounds is worth.
pub open spec fn total_delta(rounds: Seq<(u8, u8)>) -> int
    decreases rounds.len(),
{
    if rounds.len() == 0 {
        0
    } else {
        total_delta(rounds.drop_last()) + score_delta(outcome(rounds.last().0, rounds.last().1))
    }
}

/// The matches that a run of rounds leaves behind, in order of play.
pub open spec fn matches_of(rounds: Seq<(u8, u8)>) -> Seq<MatchResult> {
    Seq::new(rounds.len(), |i: int| match_of(rounds[i].0, rounds[i].1))
}

/// A record with no score and no matches.
pub open spec fn empty_record() -> GameRecord {
    GameRecord { score: 0, history: Seq::empty() }
}

/// After any run of attempted plays, the score is the score before plus the
/// points of every play that went through, and the history is the most recent
/// of the matches played, oldest first, cut to the capacity.
pub proof fn lemma_after_plays(record: GameRecord, capacity: nat, rounds: Seq<(u8, u8)>)
    requires
        record.history.len() <= capacity,
    ensures
        after_plays(record, capacity, rounds).score == record.score + total_delta(
            accepted_rounds(record, capacity, rounds),
        ),
        after_plays(record, capacity, rounds).history == ring_extend(
            record.history,
            capacity,
            matches_of(accepted_rounds(record, capacity, rounds)),
        ),
        after_plays(record, capacity, rounds).history == recent(
            record.history + matches_of(accepted_rounds(record, capacity, rounds)),
            capacity,
        ),
        after_plays(record, capacity, rounds).history.len() == min_nat(
            record.history.len() + accepted_rounds(record, capacity, rounds).len(),
            capacity,
        ),
        accepted_rounds(record, capacity, rounds).len() <= rounds.len(),
    decreases rounds.len(),
{
    let accepted = accepted_rounds(record, capacity, rounds);
    if rounds.len() > 0 {
        let earlier = accepted_rounds(record, capacity, rounds.drop_last());
        let before = after_plays(record, capacity, rounds.drop_last());
        lemma_after_plays(record, capacity, rounds.drop_last());
        if play_step(before, capacity, rounds.last().0, rounds.last().1) is Ok {
            assert(accepted.drop_last() =~= earlier);
        }
        lemma_ring_extend_recent(record.history, capacity, matches_of(accepted));
    }
}

/// A run in which every move is valid and whose points fit into the score
/// has no refused play: every round of it goes through.
pub proof fn lemma_valid_rounds_accepted(record: GameRecord, capacity: nat, rounds: Seq<(u8, u8)>)
    requires
        record.history.len() <= capacity,
        forall|i: int|
            0 <= i < rounds.len() ==> valid_choice(#[trigger] rounds[i].0) && valid_choice(
                rounds[i].1,
            ),
        record.score + total_delta(rounds) <= u64::MAX,
    ensures
        accepted_rounds(record, capacity, rounds) == rounds,
        after_plays(record, capacity, rounds).history.len() == min_nat(
            record.history.len() + rounds.len(),
            capacity,
        ),
        after_plays(record, capacity, rounds).score == record.score + total_delta(rounds),
    decreases rounds.len(),
{
    if rounds.len() > 0 {
        lemma_valid_rounds_accepted(record, capacity, rounds.drop_last());
    }
    lemma_after_plays(record, capacity, rounds);
}

/// The score never goes down: at every point of a run of attempted plays it
/// is at most what it is at the end, and at least what it was at the start.
pub proof fn lemma_score_never_decreases(
    record: GameRecord,
    capacity: nat,
    rounds: Seq<(u8, u8)>,
    count: int,
)
    requires
        0 <= count <= rounds.len(),
    ensures
        record.score <= after_plays(record, capacity, rounds.take(count)).score,
        after_plays(record, capacity, rounds.take(count)).score <= after_plays(
            record,
            capacity,
            rounds,
        ).score,
    decreases rounds.len(),
{
    if count == rounds.len() {
        assert(rounds.take(count) =~= rounds);
        if rounds.len() > 0 {
            lemma_score_never_decreases(
                record,
                capacity,
                rounds.drop_last(),
                rounds.len() - 1,
            );
        }
    } else {
        lemma_score_never_decreases(record, capacity, rounds.drop_last(), count);
        assert(rounds.drop_last().take(count) =~= rounds.take(count));
    }
}

/// From an empty record, at every point of a run of attempted plays, the
/// history holds as many matches as plays went through so far, capped at the
/// capacity, and the score is the sum of the points of those plays.
pub proof fn lemma_history_length_at_every_point(
    capacity: nat,
    rounds: Seq<(u8, u8)>,
    count: int,
)
    requires
        0 <= count <= rounds.len(),
    ensures
        after_plays(empty_record(), capacity, rounds.take(count)).history.len() == min_nat(
            accepted_rounds(empty_record(), capacity, rounds.take(count)).len(),
            capacity,
        ),
        after_plays(empty_record(), capacity, rounds.take(count)).score == total_delta(
            accepted_rounds(empty_record(), capacity, rounds.take(count)),
        ),
{
    lemma_after_plays(empty_record(), capacity, rounds.take(count));
}

/// From an empty record, once at least `capacity` plays went through, the
/// history is a sliding window over them: the last slot holds the most recent
/// match, the first slot the one that is `capacity` plays old.
pub proof fn lemma_history_sliding_window(capacity: nat, rounds: Seq<(u8, u8)>)
    requires
        0 < capacity <= accepted_rounds(empty_record(), capacity, rounds).len(),
    ensures
        after_plays(empty_record(), capacity, rounds).history.len() == capacity,
        forall|i: int|
            0 <= i < capacity ==> after_plays(empty_record(), capacity, rounds).history[i]
                == matches_of(accepted_rounds(empty_record(), capacity, rounds))[accepted_rounds(
                empty_record(),
                capacity,
                rounds,
            ).len() - capacity + i],
        after_plays(empty_record(), capacity, rounds).history[capacity - 1] == matches_of(
            accepted_rounds(empty_record(), capacity, rounds),
        ).last(),
        after_plays(empty_record(), capacity, rounds).history[0] == matches_of(
            accepted_rounds(empty_record(), capacity, rounds),
        )[accepted_rounds(empty_record(), capacity, rounds).len() - capacity],
{
    lemma_after_plays(empty_record(), capacity, rounds);
}

impl GameData {
    /// Plays one round against a given program move. On success the record
    /// holds the new score and history, and the match is returned. On refusal
    /// the record is untouched.
    pub fn play_with(&mut self, player_choice: u8, program_choice: u8) -> (r: Result<
        MatchResult,
        ErrorCode,
    >)
        requires
            old(self).wf(),
        ensures
            final(self).wf(),
            final(self)@ == after_play(
                old(self)@,
                HISTORY_SIZE as nat,
                player_choice,
                program_choice,
            ),
            (match r {
                Ok(played) => {
                    &&& play_step(old(self)@, HISTORY_SIZE as nat, player_choice, program_choice)
                        == Ok::<GameRecord, ErrorCode>(final(self)@)
                    &&& played == match_of(player_choice, program_choice)
                    &&& final(self).score == old(self).score + score_delta(played.result)
                    &&& final(self).score >= old(self).score
                },
                Err(e) => {
                    &&& play_step(old(self)@, HISTORY_SIZE as nat, player_choice, program_choice)
                        == Err::<GameRecord, ErrorCode>(e)
                    &&& *final(self) == *old(self)
                },
            }),
    {
        if player_choice > 2 || program_choice > 2 {
            return Err(ErrorCode::InvalidMove);
        }
        let resolution = resolve(player_choice, program_choice);
        let score = match self.score.checked_add(resolution.score_delta) {
            Some(score) => score,
            None => {
                return Err(ErrorCode::ScoreOverflow);
            },
        };
        let played = MatchResult { player_choice, program_choice, result: resolution.result };
        self.score = score;
        self.append(played);
        Ok(played)
    }
}

/// Plays one round: the program's move is derived from `entropy_seed`, then
/// the round is played as `GameData::play_with` plays it.
pub fn play(record: &mut GameData, player_choice: u8, entropy_seed: &[u8]) -> (r: Result<
    MatchResult,
    ErrorCode,
>)
    requires
        old(record).wf(),
    ensures
        final(record).wf(),
        final(record)@ == after_play(
            old(record)@,
            HISTORY_SIZE as nat,
            player_choice,
            program_choice(entropy_seed@),
        ),
        (match r {
            Ok(played) => {
                &&& play_step(
                    old(record)@,
                    HISTORY_SIZE as nat,
                    player_choice,
                    program_choice(entropy_seed@),
                ) == Ok::<GameRecord, ErrorCode>(final(record)@)
                &&& played == match_of(player_choice, program_choice(entropy_seed@))
                &&& final(record).score == old(record).score + score_delta(played.result)
            },
            Err(e) => {
                &&& play_step(
                    old(record)@,
                    HISTORY_SIZE as nat,
                    player_choice,
                    program_choice(entropy_seed@),
                ) == Err::<GameRecord, ErrorCode>(e)
                &&& *final(record) == *old(record)
            },
        }),
{
    if player_choice > 2 {
        return Err(ErrorCode::InvalidMove);
    }
    let derived = derive_program_choice(entropy_seed);
    record.play_with(player_choice, derived)
}

} // verus!
