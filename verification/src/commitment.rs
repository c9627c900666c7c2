use vstd::prelude::*;

use crate::identity::{bytes32_eq, Pubkey};

verus! {

/// The digest that binds a salt, a score and a player identity: the SHA-256
/// hash of the salt bytes, the score's little-endian bytes and the player
/// bytes, in that order. The digest is a function of those inputs alone;
/// its value is not stated here, only named.
pub uninterp spec fn commit_digest(salt: Seq<u8>, score: u64, player: Seq<u8>) -> Seq<u8>;

/// Relies on anchor_lang::solana_program::hash::hashv: the SHA-256 digest
/// of the given byte slices hashed in order, 32 bytes long, and a function
/// of those bytes alone.
#[verifier::external_body]
fn hash_commitment(salt: &[u8; 32], score: u64, player: &[u8; 32]) -> (r: [u8; 32])
    ensures
        r@ == commit_digest(salt@, score, player@),
{
    anchor_lang::solana_program::hash::hashv(&[salt, &score.to_le_bytes(), player]).to_bytes()
}

/// Produces the opaque commitment a player supplies at entry time: a
/// one-way binding of (score, salt, player) that reveals nothing of the
/// score until the player reopens it.
pub fn commit(player: &Pubkey, score: u64, salt: &[u8; 32]) -> (r: [u8; 32])
    ensures
        r@ == commit_digest(salt@, score, player@),
{
    hash_commitment(salt, score, &player.bytes)
}

/// Checks a revealed (score, salt) pair against the stored commitment:
/// recomputes the digest and compares for exact equality.
pub fn verify(digest: &[u8; 32], player: &Pubkey, score: u64, salt: &[u8; 32]) -> (r: bool)
    ensures
        r == (digest@ == commit_digest(salt@, score, player@)),
{
    let computed = commit(player, score, salt);
    bytes32_eq(digest, &computed)
}

} // verus!
