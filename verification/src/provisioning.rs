//! Where a player's record lives, and when it has to be created.
//!
//! Each player has one record, stored at an address derived from the
//! player's identity. Storage is created on the player's first play and
//! starts out as the blob of an empty record.

use crate::codec::{encode, spec_decode, spec_encode, well_formed};
use crate::error::ErrorCode;
use crate::game::empty_record;
use crate::record::{GameData, GameRecord, DATA_SIZE};
use vstd::bytes::spec_u64_to_le_bytes_to_open;
use vstd::prelude::*;

verus! {

/// Bytes of an identity or an address.
pub const KEY_SIZE: usize = 32;

/// The first seed of every record address: the ASCII bytes of `score`.
pub const SEED_PREFIX: [u8; 5] = [115, 99, 111, 114, 101];

/// The program address that `Pubkey::try_find_program_address` of
/// `solana_program` finds for a list of seeds and a program id, with its bump
/// seed, if there is one.
pub uninterp spec fn program_address(seeds: Seq<Seq<u8>>, program_id: Seq<u8>) -> Option<
    (Seq<u8>, u8),
>;

/// A derived address as plain values: the bytes of the address and the bump
/// seed.
pub open spec fn address_view(found: Option<([u8; KEY_SIZE], u8)>) -> Option<(Seq<u8>, u8)> {
    match found {
        Some((address, bump)) => Some((address@, bump)),
        None => None,
    }
}

/// Calls `solana_program::pubkey::Pubkey::try_find_program_address` with the
/// two seeds `prefix` and `identity`, and hands out the bytes of the address
/// and the bump seed it returns. The contract is not proved: it claims that
/// the result is a function of the seeds and the program id alone.
#[verifier::external_body]
fn find_program_address(prefix: &[u8], identity: &[u8], program_id: &[u8; KEY_SIZE]) -> (found:
    Option<([u8; KEY_SIZE], u8)>)
    ensures
        address_view(found) == program_address(seq![prefix@, identity@], program_id@),
{
    let id = solana_program::pubkey::Pubkey::new_from_array(*program_id);
    match solana_program::pubkey::Pubkey::try_find_program_address(&[prefix, identity], &id) {
        Some((address, bump)) => Some((address.to_bytes(), bump)),
        None => None,
    }
}

/// The address of a player's record under a program, with its bump seed.
pub open spec fn record_address(program_id: Seq<u8>, payer: Seq<u8>) -> Option<(Seq<u8>, u8)> {
    program_address(seq![SEED_PREFIX@, payer], program_id)
}

/// The bump seed of a derived address, provided the address is the given one.
pub open spec fn matching_bump(found: Option<(Seq<u8>, u8)>, given: Seq<u8>) -> Result<
    u8,
    ErrorCode,
> {
    match found {
        Some((address, bump)) => if address == given {
            Ok(bump)
        } else {
            Err(ErrorCode::Unauthorized)
        },
        None => Err(ErrorCode::Unauthorized),
    }
}

/// Whether two keys hold the same bytes.
pub fn same_key(a: &[u8; KEY_SIZE], b: &[u8; KEY_SIZE]) -> (same: bool)
    ensures
        same == (a@ == b@),
{
    let mut i: usize = 0;
    while i < KEY_SIZE
        invariant
            i <= KEY_SIZE,
            forall|k: int| 0 <= k < i ==> a[k] == b[k],
        decreases KEY_SIZE - i,
    {
        if a[i] != b[i] {
            return false;
        }
        i += 1;
    }
    assert(a@ =~= b@);
    true
}

/// Compares a derived address with the address that was handed in. Returns
/// the bump seed when they are the same, and refuses with `Unauthorized` when
/// they differ or no address could be derived.
pub fn check_address(found: Option<([u8; KEY_SIZE], u8)>, given: &[u8; KEY_SIZE]) -> (r: Result<
    u8,
    ErrorCode,
>)
    ensures
        r == matching_bump(address_view(found), given@),
{
    match found {
        Some((address, bump)) => {
            if same_key(&address, given) {
                Ok(bump)
            } else {
                Err(ErrorCode::Unauthorized)
            }
        },
        None => Err(ErrorCode::Unauthorized),
    }
}

/// Checks that `record_key` is the address of `payer`'s record under the
/// program, and returns the bump seed of that address.
pub fn locate_record(
    program_id: &[u8; KEY_SIZE],
    payer: &[u8; KEY_SIZE],
    record_key: &[u8; KEY_SIZE],
) -> (r: Result<u8, ErrorCode>)
    ensures
        r == matching_bump(record_address(program_id@, payer@), record_key@),
{
    let found = find_program_address(SEED_PREFIX.as_slice(), payer.as_slice(), program_id);
    check_address(found, record_key)
}

/// Whether backing storage has to be created before the first play: the
/// account holds no funds, or its data is too short for a record.
pub fn needs_provisioning(lamports: u64, data_len: usize) -> (needed: bool)
    ensures
        needed == (lamports == 0 || data_len < DATA_SIZE),
{
    lamports == 0 || data_len < DATA_SIZE
}

/// The blob of a record on first creation: every byte zero.
pub fn initial_data() -> (bytes: Vec<u8>)
    ensures
        bytes@ == spec_encode(empty_record()),
        spec_decode(bytes@) == Ok::<GameRecord, ErrorCode>(empty_record()),
        well_formed(bytes@),
        bytes@.len() == DATA_SIZE,
        forall|k: int| 0 <= k < DATA_SIZE ==> bytes@[k] == 0,
{
    let record = GameData::new();
    let bytes = encode(&record);
    proof {
        spec_u64_to_le_bytes_to_open(0);
        assert(0u64 & 0xff == 0 && (0u64 >> 8) & 0xff == 0 && (0u64 >> 16) & 0xff == 0 && (0u64
            >> 24) & 0xff == 0 && (0u64 >> 32) & 0xff == 0 && (0u64 >> 40) & 0xff == 0 && (0u64
            >> 48) & 0xff == 0 && (0u64 >> 56) & 0xff == 0) by (bit_vector);
    }
    bytes
}

} // verus!
