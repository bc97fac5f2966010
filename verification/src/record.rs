//! The fixed-layout game record and its abstract content.

use crate::history::ring_push;
use crate::outcome::MatchResult;
use vstd::prelude::*;

verus! {

/// Bytes taken by the score.
pub const SCORE_SIZE: usize = 8;

/// Number of history slots in a fixed-layout record.
pub const HISTORY_SIZE: usize = 200;

/// Bytes taken by one history slot: player move, program move, result.
pub const RECORD_SIZE: usize = 3;

/// Total bytes of a stored record: the score, one byte for the number of
/// valid history entries, and all history slots.
pub const DATA_SIZE: usize = SCORE_SIZE + (HISTORY_SIZE * RECORD_SIZE) + 1;

/// What a record says, apart from how it is stored: the score and the
/// matches kept, oldest first.
#[verifier::ext_equal]
pub struct GameRecord {
    pub score: u64,
    pub history: Seq<MatchResult>,
}

/// A record in its fixed layout. All slots of `history` exist from the start;
/// only the first `history_len` of them hold matches.
#[derive(Clone, Copy, Debug, PartialEq, Eq)]
pub struct GameData {
    pub score: u64,
    pub history_len: u8,
    pub history: [[u8; RECORD_SIZE]; HISTORY_SIZE],
}

/// The match stored in one slot.
pub open spec fn entry_of_slot(slot: [u8; RECORD_SIZE]) -> MatchResult {
    MatchResult { player_choice: slot[0], program_choice: slot[1], result: slot[2] }
}

impl View for GameData {
    type V = GameRecord;

    open spec fn view(&self) -> GameRecord {
        GameRecord {
            score: self.score,
            history: Seq::new(self.history_len as nat, |i: int| entry_of_slot(self.history[i])),
        }
    }
}

impl GameData {
    /// The number of valid entries does not exceed the number of slots.
    pub open spec fn wf(&self) -> bool {
        self.history_len <= HISTORY_SIZE
    }

    /// Tests whether the record is well formed.
    pub fn is_wf(&self) -> (ok: bool)
        ensures
            ok == self.wf(),
    {
        self.history_len as usize <= HISTORY_SIZE
    }

    /// A fresh record: no score, no matches, every slot zeroed.
    pub fn new() -> (record: GameData)
        ensures
            record.wf(),
            record.score == 0,
            record.history_len == 0,
            record@.history == Seq::<MatchResult>::empty(),
            forall|i: int, j: int|
                0 <= i < HISTORY_SIZE && 0 <= j < RECORD_SIZE ==> record.history[i][j] == 0,
    {
        let record = GameData {
            score: 0,
            history_len: 0,
            history: [[0u8; RECORD_SIZE]; HISTORY_SIZE],
        };
        record
    }

    /// The matches kept, oldest first.
    pub fn entries(&self) -> (list: Vec<MatchResult>)
        requires
            self.wf(),
        ensures
            list@ == self@.history,
    {
        let mut list: Vec<MatchResult> = Vec::new();
        let mut i: usize = 0;
        while i < self.history_len as usize
            invariant
                self.wf(),
                i <= self.history_len,
                list@ == self@.history.take(i as int),
            decreases self.history_len - i,
        {
            let slot = self.history[i];
            list.push(
                MatchResult { player_choice: slot[0], program_choice: slot[1], result: slot[2] },
            );
            i += 1;
        }
        list
    }

    /// Appends a match to the history. While slots are free the match takes
    /// the first free one. When all are taken, every match moves one slot
    /// towards the front, the oldest is dropped, and the new one takes the
    /// last slot.
    pub fn append(&mut self, entry: MatchResult)
        requires
            old(self).wf(),
        ensures
            final(self).wf(),
            final(self).score == old(self).score,
            final(self)@.history == ring_push(old(self)@.history, HISTORY_SIZE as nat, entry),
            old(self).history_len < HISTORY_SIZE ==> final(self).history_len == old(
                self,
            ).history_len + 1,
            old(self).history_len == HISTORY_SIZE ==> final(self).history_len == HISTORY_SIZE,
    {
        if self.history_len as usize == HISTORY_SIZE {
            let mut i: usize = 0;
            while i < HISTORY_SIZE - 1
                invariant
                    i <= HISTORY_SIZE - 1,
                    self.history_len == old(self).history_len,
                    self.score == old(self).score,
                    forall|j: int| 0 <= j < i ==> self.history[j] == old(self).history[j + 1],
                    forall|j: int|
                        i <= j < HISTORY_SIZE ==> self.history[j] == old(self).history[j],
                decreases HISTORY_SIZE - 1 - i,
            {
                self.history[i] = self.history[i + 1];
                i += 1;
            }
        } else {
            self.history_len += 1;
        }
        let last: usize = (self.history_len - 1) as usize;
        self.history[last] = [entry.player_choice, entry.program_choice, entry.result];
    }
}

} // verus!
