//! One play on a stored record: clear the call, load the blob, play, store.
//!
//! Nothing here touches accounts or the clock. The caller supplies what the
//! platform says about the call, the counter and the stored bytes, and
//! persists the bytes that come back.

use crate::codec::{decode, encode, spec_decode, spec_encode, well_formed};
use crate::entropy::{build_seed, derive_program_choice, entropy_seed, program_choice};
use crate::error::ErrorCode;
use crate::game::play_step;
use crate::outcome::{match_of, valid_choice, MatchResult};
use crate::provisioning::{locate_record, matching_bump, record_address, KEY_SIZE};
use crate::record::{GameRecord, HISTORY_SIZE};
use vstd::prelude::*;

verus! {

/// What a successful play reports back: the new score, the history kept, and
/// the match just played.
#[derive(Clone, Debug, PartialEq, Eq)]
pub struct PlaySummary {
    pub score: u64,
    pub history: Vec<MatchResult>,
    pub latest: MatchResult,
}

impl PlaySummary {
    /// The record that the summary reports.
    pub open spec fn record(&self) -> GameRecord {
        GameRecord { score: self.score, history: self.history@ }
    }
}

/// The move that instruction data carries: exactly one byte, holding rock,
/// paper or scissors.
pub open spec fn spec_parse_move(instruction_data: Seq<u8>) -> Result<u8, ErrorCode> {
    if instruction_data.len() == 1 && valid_choice(instruction_data[0]) {
        Ok(instruction_data[0])
    } else {
        Err(ErrorCode::InvalidMove)
    }
}

/// What one play does to a stored blob. An invalid move is refused before the
/// blob is looked at; then a blob that stores no record; then a score that
/// would overflow. Otherwise the result is the blob of the record after the
/// play.
pub open spec fn transition(data: Seq<u8>, player_choice: u8, program_choice: u8) -> Result<
    Seq<u8>,
    ErrorCode,
> {
    if !valid_choice(player_choice) || !valid_choice(program_choice) {
        Err(ErrorCode::InvalidMove)
    } else {
        match spec_decode(data) {
            Err(e) => Err(e),
            Ok(record) => match play_step(
                record,
                HISTORY_SIZE as nat,
                player_choice,
                program_choice,
            ) {
                Err(e) => Err(e),
                Ok(next) => Ok(spec_encode(next)),
            },
        }
    }
}

/// What one instruction does to a stored blob: the move is parsed from the
/// instruction data, the program's move is derived from the counter and the
/// payer's identity, and the play is applied.
pub open spec fn instruction_effect(
    payer: Seq<u8>,
    slot: u64,
    instruction_data: Seq<u8>,
    data: Seq<u8>,
) -> Result<Seq<u8>, ErrorCode> {
    match spec_parse_move(instruction_data) {
        Err(e) => Err(e),
        Ok(player_choice) => transition(
            data,
            player_choice,
            program_choice(entropy_seed(slot, payer)),
        ),
    }
}

/// What a cleared call goes on with: the player's move, and the bump seed of
/// the address of the player's record.
#[derive(Clone, Copy, Debug, PartialEq, Eq, Structural)]
pub struct Admission {
    pub player_choice: u8,
    pub bump: u8,
}

/// Whether a call may proceed. A call that the payer did not sign is refused
/// as `Unauthorized`; then instruction data that carries no valid move, as
/// `InvalidMove`; then a record account that is not at the address of the
/// payer's record, as `Unauthorized`.
pub open spec fn spec_authorize(
    program_id: Seq<u8>,
    payer: Seq<u8>,
    payer_is_signer: bool,
    record_key: Seq<u8>,
    instruction_data: Seq<u8>,
) -> Result<Admission, ErrorCode> {
    if !payer_is_signer {
        Err(ErrorCode::Unauthorized)
    } else {
        match spec_parse_move(instruction_data) {
            Err(e) => Err(e),
            Ok(player_choice) => match matching_bump(
                record_address(program_id, payer),
                record_key,
            ) {
                Err(e) => Err(e),
                Ok(bump) => Ok(Admission { player_choice, bump }),
            },
        }
    }
}

/// Decides whether a call may proceed, before any storage is created or
/// touched.
pub fn authorize(
    program_id: &[u8; KEY_SIZE],
    payer: &[u8; KEY_SIZE],
    payer_is_signer: bool,
    record_key: &[u8; KEY_SIZE],
    instruction_data: &[u8],
) -> (r: Result<Admission, ErrorCode>)
    ensures
        r == spec_authorize(program_id@, payer@, payer_is_signer, record_key@, instruction_data@),
{
    if !payer_is_signer {
        return Err(ErrorCode::Unauthorized);
    }
    let player_choice = match parse_move(instruction_data) {
        Ok(player_choice) => player_choice,
        Err(e) => {
            return Err(e);
        },
    };
    match locate_record(program_id, payer, record_key) {
        Ok(bump) => Ok(Admission { player_choice, bump }),
        Err(e) => Err(e),
    }
}

/// Reads the player's move from instruction data.
pub fn parse_move(instruction_data: &[u8]) -> (r: Result<u8, ErrorCode>)
    ensures
        r == spec_parse_move(instruction_data@),
{
    if instruction_data.len() != 1 {
        return Err(ErrorCode::InvalidMove);
    }
    let player_choice = instruction_data[0];
    if player_choice > 2 {
        return Err(ErrorCode::InvalidMove);
    }
    Ok(player_choice)
}

/// Applies one play, against a given program move, to a stored blob. On
/// success the blob holds the record after the play and the summary reports
/// it. On refusal the blob is unchanged.
pub fn apply_move(data: &mut Vec<u8>, player_choice: u8, program_choice: u8) -> (r: Result<
    PlaySummary,
    ErrorCode,
>)
    ensures
        (match r {
            Ok(summary) => {
                &&& transition(old(data)@, player_choice, program_choice) == Ok::<
                    Seq<u8>,
                    ErrorCode,
                >(final(data)@)
                &&& spec_decode(old(data)@) is Ok
                &&& play_step(
                    spec_decode(old(data)@)->Ok_0,
                    HISTORY_SIZE as nat,
                    player_choice,
                    program_choice,
                ) == Ok::<GameRecord, ErrorCode>(summary.record())
                &&& spec_decode(final(data)@) == Ok::<GameRecord, ErrorCode>(summary.record())
                &&& well_formed(final(data)@)
                &&& summary.latest == match_of(player_choice, program_choice)
            },
            Err(e) => {
                &&& transition(old(data)@, player_choice, program_choice) == Err::<
                    Seq<u8>,
                    ErrorCode,
                >(e)
                &&& final(data)@ == old(data)@
            },
        }),
{
    if player_choice > 2 || program_choice > 2 {
        return Err(ErrorCode::InvalidMove);
    }
    let mut record = match decode(data.as_slice()) {
        Ok(record) => record,
        Err(e) => {
            return Err(e);
        },
    };
    let latest = match record.play_with(player_choice, program_choice) {
        Ok(latest) => latest,
        Err(e) => {
            return Err(e);
        },
    };
    let history = record.entries();
    let encoded = encode(&record);
    *data = encoded;
    Ok(PlaySummary { score: record.score, history, latest })
}

/// Processes one play instruction on a stored record. `payer` is the
/// player's identity, `slot` the platform counter, `instruction_data` the
/// bytes that carry the move, and `data` the stored blob, which is replaced
/// on success and left unchanged on refusal.
pub fn process_instruction(
    payer: &[u8],
    slot: u64,
    instruction_data: &[u8],
    data: &mut Vec<u8>,
) -> (r: Result<PlaySummary, ErrorCode>)
    ensures
        (match r {
            Ok(summary) => {
                &&& instruction_effect(payer@, slot, instruction_data@, old(data)@) == Ok::<
                    Seq<u8>,
                    ErrorCode,
                >(final(data)@)
                &&& spec_decode(old(data)@) is Ok
                &&& play_step(
                    spec_decode(old(data)@)->Ok_0,
                    HISTORY_SIZE as nat,
                    instruction_data@[0],
                    program_choice(entropy_seed(slot, payer@)),
                ) == Ok::<GameRecord, ErrorCode>(summary.record())
                &&& spec_decode(final(data)@) == Ok::<GameRecord, ErrorCode>(summary.record())
                &&& well_formed(final(data)@)
                &&& summary.latest == match_of(
                    instruction_data@[0],
                    program_choice(entropy_seed(slot, payer@)),
                )
            },
            Err(e) => {
                &&& instruction_effect(payer@, slot, instruction_data@, old(data)@) == Err::<
                    Seq<u8>,
                    ErrorCode,
                >(e)
                &&& final(data)@ == old(data)@
            },
        }),
{
    let player_choice = match parse_move(instruction_data) {
        Ok(player_choice) => player_choice,
        Err(e) => {
            return Err(e);
        },
    };
    let seed = build_seed(slot, payer);
    let derived = derive_program_choice(seed.as_slice());
    apply_move(data, player_choice, derived)
}

} // verus!
