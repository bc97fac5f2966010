//! Derivation of the program's move from public inputs.
//!
//! The counter-move is pseudo-random but reproducible: a platform counter is
//! joined with the player's identity, the bytes are hashed with SHA-256, and
//! the first byte of the digest is reduced modulo three. Whoever can predict
//! the counter can predict the move.

use vstd::bytes::{spec_u64_to_le_bytes, u64_to_le_bytes};
use vstd::prelude::*;

verus! {

/// The SHA-256 digest of `data`, as `solana_program::hash::hash` computes it.
pub uninterp spec fn sha256(data: Seq<u8>) -> Seq<u8>;

/// Calls `solana_program::hash::hash` and hands out the 32 bytes of the
/// `Hash` it returns. The contract is not proved: it claims that the bytes are
/// the SHA-256 digest of `data`, a function of `data` alone.
#[verifier::external_body]
fn sha256_digest(data: &[u8]) -> (digest: [u8; 32])
    ensures
        digest@ == sha256(data@),
{
    solana_program::hash::hash(data).to_bytes()
}

/// The bytes that are hashed for one play: the counter in little-endian
/// order, followed by the player's identity.
pub open spec fn entropy_seed(counter: u64, identity: Seq<u8>) -> Seq<u8> {
    spec_u64_to_le_bytes(counter) + identity
}

/// The move that a digest stands for: its first byte modulo three.
pub open spec fn choice_of_digest(digest: Seq<u8>) -> u8 {
    (digest[0] % 3) as u8
}

/// The program's move for a seed.
pub open spec fn program_choice(seed: Seq<u8>) -> u8 {
    choice_of_digest(sha256(seed))
}

/// Joins a counter and a player's identity into the seed of one play.
pub fn build_seed(counter: u64, identity: &[u8]) -> (seed: Vec<u8>)
    ensures
        seed@ == entropy_seed(counter, identity@),
{
    let mut seed = u64_to_le_bytes(counter);
    let ghost prefix = seed@;
    let mut i: usize = 0;
    while i < identity.len()
        invariant
            i <= identity.len(),
            seed@ == prefix + identity@.take(i as int),
        decreases identity.len() - i,
    {
        seed.push(identity[i]);
        i += 1;
    }
    seed
}

/// Reduces a digest to a move.
pub fn choice_from_digest(digest: &[u8; 32]) -> (choice: u8)
    ensures
        choice == choice_of_digest(digest@),
        choice <= 2,
{
    digest[0] % 3
}

/// Derives the program's move from a seed: hashes the seed and reduces the
/// digest. The same seed always gives the same move.
pub fn derive_program_choice(seed: &[u8]) -> (choice: u8)
    ensures
        choice == program_choice(seed@),
        choice <= 2,
{
    let digest = sha256_digest(seed);
    choice_from_digest(&digest)
}

} // verus!
