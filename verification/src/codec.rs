//! The record codec: a record as a fixed-size binary blob.
//!
//! Layout, in order: the score as eight little-endian bytes, one byte with
//! the number of valid history entries, then all history slots of three bytes
//! each (player move, program move, result). Every slot is present whether
//! it holds a match or not; slots past the valid entries are zero.

use crate::error::ErrorCode;
use crate::outcome::MatchResult;
use crate::record::{
    entry_of_slot, GameData, GameRecord, DATA_SIZE, HISTORY_SIZE, RECORD_SIZE, SCORE_SIZE,
};
use vstd::bytes::{
    lemma_auto_spec_u64_to_from_le_bytes, spec_u64_from_le_bytes, spec_u64_to_le_bytes,
    u64_from_le_bytes, u64_to_le_bytes,
};
use vstd::prelude::*;
use vstd::slice::slice_subrange;

verus! {

/// Where the slots begin: after the score and the entry count.
pub const SLOTS_OFFSET: usize = SCORE_SIZE + 1;

/// The byte at position `k` of the slot area for a given history: a field of
/// the entry that owns the position, or zero past the last entry.
pub open spec fn slot_byte(history: Seq<MatchResult>, k: int) -> u8 {
    let entry = history[k / (RECORD_SIZE as int)];
    if k / (RECORD_SIZE as int) >= history.len() {
        0
    } else if k % (RECORD_SIZE as int) == 0 {
        entry.player_choice
    } else if k % (RECORD_SIZE as int) == 1 {
        entry.program_choice
    } else {
        entry.result
    }
}

/// The slot area for a given history.
pub open spec fn slot_area(history: Seq<MatchResult>) -> Seq<u8> {
    Seq::new((HISTORY_SIZE * RECORD_SIZE) as nat, |k: int| slot_byte(history, k))
}

/// The blob that stores a record.
pub open spec fn spec_encode(record: GameRecord) -> Seq<u8> {
    spec_u64_to_le_bytes(record.score) + seq![record.history.len() as u8] + slot_area(
        record.history,
    )
}

/// The entry stored in slot `i` of a blob.
pub open spec fn stored_entry(bytes: Seq<u8>, i: int) -> MatchResult {
    MatchResult {
        player_choice: bytes[SLOTS_OFFSET + RECORD_SIZE * i],
        program_choice: bytes[SLOTS_OFFSET + RECORD_SIZE * i + 1],
        result: bytes[SLOTS_OFFSET + RECORD_SIZE * i + 2],
    }
}

/// The record that a blob stores. A blob of the wrong length, or one that
/// claims more entries than there are slots, stores none. Slots past the
/// claimed entries are not looked at.
pub open spec fn spec_decode(bytes: Seq<u8>) -> Result<GameRecord, ErrorCode> {
    if bytes.len() != DATA_SIZE || bytes[SCORE_SIZE as int] > HISTORY_SIZE {
        Err(ErrorCode::CorruptRecord)
    } else {
        Ok(
            GameRecord {
                score: spec_u64_from_le_bytes(bytes.subrange(0, SCORE_SIZE as int)),
                history: Seq::new(
                    bytes[SCORE_SIZE as int] as nat,
                    |i: int| stored_entry(bytes, i),
                ),
            },
        )
    }
}

/// A blob in the form that `spec_encode` produces: the right length, an entry
/// count within the slots, and zeros in every slot past the entries.
pub open spec fn well_formed(bytes: Seq<u8>) -> bool {
    &&& bytes.len() == DATA_SIZE
    &&& bytes[SCORE_SIZE as int] <= HISTORY_SIZE
    &&& forall|k: int|
        SLOTS_OFFSET + RECORD_SIZE * bytes[SCORE_SIZE as int] <= k < DATA_SIZE ==> bytes[k] == 0
}

/// Decoding what was encoded gives the record back, and every encoded blob is
/// well formed.
pub proof fn lemma_decode_encode(record: GameRecord)
    requires
        record.history.len() <= HISTORY_SIZE,
    ensures
        spec_encode(record).len() == DATA_SIZE,
        well_formed(spec_encode(record)),
        spec_decode(spec_encode(record)) == Ok::<GameRecord, ErrorCode>(record),
{
    lemma_auto_spec_u64_to_from_le_bytes();
    let bytes = spec_encode(record);
    assert(bytes.subrange(0, SCORE_SIZE as int) =~= spec_u64_to_le_bytes(record.score));
    assert(spec_decode(bytes)->Ok_0 =~= record);
}

/// Encoding what a well-formed blob decodes to gives the same blob back.
pub proof fn lemma_encode_decode(bytes: Seq<u8>)
    requires
        well_formed(bytes),
    ensures
        spec_decode(bytes) matches Ok(record) && spec_encode(record) == bytes,
{
    lemma_auto_spec_u64_to_from_le_bytes();
}

/// Reads a record from its blob. Fails with `CorruptRecord` exactly when the
/// blob has the wrong length or claims more entries than there are slots.
/// Only the claimed entries are read; the remaining slots of the result are
/// zero. Encoding the record of a well-formed blob gives that blob back.
pub fn decode(bytes: &[u8]) -> (r: Result<GameData, ErrorCode>)
    ensures
        (match r {
            Ok(record) => {
                &&& record.wf()
                &&& spec_decode(bytes@) == Ok::<GameRecord, ErrorCode>(record@)
                &&& forall|i: int, j: int|
                    record.history_len <= i < HISTORY_SIZE && 0 <= j < RECORD_SIZE
                        ==> record.history[i][j] == 0
                &&& well_formed(bytes@) ==> spec_encode(record@) == bytes@
            },
            Err(e) => spec_decode(bytes@) == Err::<GameRecord, ErrorCode>(e),
        }),
{
    if bytes.len() != DATA_SIZE {
        return Err(ErrorCode::CorruptRecord);
    }
    let history_len = bytes[SCORE_SIZE];
    if history_len as usize > HISTORY_SIZE {
        return Err(ErrorCode::CorruptRecord);
    }
    let score = u64_from_le_bytes(slice_subrange(bytes, 0, SCORE_SIZE));
    let mut history = [[0u8; RECORD_SIZE]; HISTORY_SIZE];
    let mut i: usize = 0;
    while i < history_len as usize
        invariant
            bytes@.len() == DATA_SIZE,
            history_len <= HISTORY_SIZE,
            i <= history_len,
            forall|j: int| 0 <= j < i ==> entry_of_slot(history[j]) == stored_entry(bytes@, j),
            forall|j: int, k: int|
                i <= j < HISTORY_SIZE && 0 <= k < RECORD_SIZE ==> history[j][k] == 0,
        decreases history_len - i,
    {
        let at = SLOTS_OFFSET + i * RECORD_SIZE;
        history[i] = [bytes[at], bytes[at + 1], bytes[at + 2]];
        i += 1;
    }
    let record = GameData { score, history_len, history };
    proof {
        assert(record@.history =~= spec_decode(bytes@)->Ok_0.history);
        if well_formed(bytes@) {
            lemma_encode_decode(bytes@);
        }
    }
    Ok(record)
}

/// Writes a record as its blob: the valid entries in their slots, zeros in
/// all the others.
pub fn encode(record: &GameData) -> (bytes: Vec<u8>)
    requires
        record.wf(),
    ensures
        bytes@ == spec_encode(record@),
        bytes@.len() == DATA_SIZE,
        well_formed(bytes@),
        spec_decode(bytes@) == Ok::<GameRecord, ErrorCode>(record@),
{
    proof {
        lemma_auto_spec_u64_to_from_le_bytes();
        lemma_decode_encode(record@);
    }
    let mut bytes = u64_to_le_bytes(record.score);
    bytes.push(record.history_len);
    let ghost head = bytes@;
    let mut i: usize = 0;
    while i < HISTORY_SIZE
        invariant
            i <= HISTORY_SIZE,
            record.wf(),
            head.len() == SLOTS_OFFSET,
            bytes@.len() == SLOTS_OFFSET + RECORD_SIZE * i,
            bytes@.subrange(0, SLOTS_OFFSET as int) == head,
            forall|k: int|
                0 <= k < RECORD_SIZE * i ==> bytes@[SLOTS_OFFSET + k] == slot_byte(
                    record@.history,
                    k,
                ),
        decreases HISTORY_SIZE - i,
    {
        if i < record.history_len as usize {
            let slot = record.history[i];
            bytes.push(slot[0]);
            bytes.push(slot[1]);
            bytes.push(slot[2]);
        } else {
            bytes.push(0);
            bytes.push(0);
            bytes.push(0);
        }
        i += 1;
    }
    assert(bytes@ =~= spec_encode(record@)) by {
        assert(head =~= spec_u64_to_le_bytes(record.score) + seq![record.history_len]);
    }
    bytes
}

} // verus!
