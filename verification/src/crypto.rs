//! Commitments and nullifiers: the two digests that bind a private note
//! to the public ledger.
//!
//! A commitment hashes all four fields of a note. A nullifier hashes the
//! owner's secret and the salt around a fixed tag, so that the two kinds of
//! digest are taken over byte strings that can never coincide.

use crate::bytes::{
    append_bytes, append_le, bytes_equal, le_bytes, lemma_le_bytes_len,
    lemma_le_bytes_u128_injective,
};
use crate::hash::{sha256, sha256_collision, sha256_digest};
use vstd::prelude::*;

verus! {

/// The ASCII bytes of `NULLIFIER`, which mark a nullifier's preimage.
pub open spec fn nullifier_tag() -> Seq<u8> {
    seq![0x4Eu8, 0x55u8, 0x4Cu8, 0x4Cu8, 0x49u8, 0x46u8, 0x49u8, 0x45u8, 0x52u8]
}

/// The byte string a commitment is the digest of: the secret, the
/// collateral and the debt as 16 little-endian bytes each, and the salt.
pub open spec fn commitment_preimage(
    secret_key: Seq<u8>,
    collateral_amount: u128,
    debt_amount: u128,
    salt: Seq<u8>,
) -> Seq<u8> {
    secret_key + le_bytes(collateral_amount as nat, 16) + le_bytes(debt_amount as nat, 16) + salt
}

/// The byte string a nullifier is the digest of: the secret, the tag and
/// the salt.
pub open spec fn nullifier_preimage(secret_key: Seq<u8>, salt: Seq<u8>) -> Seq<u8> {
    secret_key + nullifier_tag() + salt
}

/// The commitment to a note.
pub open spec fn commitment_of(
    secret_key: Seq<u8>,
    collateral_amount: u128,
    debt_amount: u128,
    salt: Seq<u8>,
) -> Seq<u8> {
    sha256(commitment_preimage(secret_key, collateral_amount, debt_amount, salt))
}

/// The nullifier of a note.
pub open spec fn nullifier_of(secret_key: Seq<u8>, salt: Seq<u8>) -> Seq<u8> {
    sha256(nullifier_preimage(secret_key, salt))
}

/// Whether `expected_commitment` is the commitment to the given note.
pub open spec fn owns_note(
    secret_key: Seq<u8>,
    collateral_amount: u128,
    debt_amount: u128,
    salt: Seq<u8>,
    expected_commitment: Seq<u8>,
) -> bool {
    commitment_of(secret_key, collateral_amount, debt_amount, salt) == expected_commitment
}

/// The tag that marks a nullifier's preimage.
pub fn nullifier_tag_bytes() -> (tag: [u8; 9])
    ensures
        tag@ == nullifier_tag(),
{
    let tag: [u8; 9] = [0x4E, 0x55, 0x4C, 0x4C, 0x49, 0x46, 0x49, 0x45, 0x52];
    assert(tag@ =~= nullifier_tag());
    tag
}

/// Lays out the bytes that a commitment is the digest of.
pub fn commitment_preimage_bytes(
    secret_key: &[u8; 32],
    collateral_amount: u128,
    debt_amount: u128,
    salt: &[u8; 32],
) -> (bytes: Vec<u8>)
    ensures
        bytes@ == commitment_preimage(secret_key@, collateral_amount, debt_amount, salt@),
{
    let mut bytes: Vec<u8> = Vec::new();
    append_bytes(&mut bytes, secret_key.as_slice());
    append_le(&mut bytes, collateral_amount, 16);
    append_le(&mut bytes, debt_amount, 16);
    append_bytes(&mut bytes, salt.as_slice());
    bytes
}

/// Lays out the bytes that a nullifier is the digest of.
pub fn nullifier_preimage_bytes(secret_key: &[u8; 32], salt: &[u8; 32]) -> (bytes: Vec<u8>)
    ensures
        bytes@ == nullifier_preimage(secret_key@, salt@),
{
    let tag = nullifier_tag_bytes();
    let mut bytes: Vec<u8> = Vec::new();
    append_bytes(&mut bytes, secret_key.as_slice());
    append_bytes(&mut bytes, tag.as_slice());
    append_bytes(&mut bytes, salt.as_slice());
    bytes
}

/// Computes the commitment to a note.
pub fn hash_commitment(
    secret_key: &[u8; 32],
    collateral_amount: u128,
    debt_amount: u128,
    salt: &[u8; 32],
) -> (digest: [u8; 32])
    ensures
        digest@ == commitment_of(secret_key@, collateral_amount, debt_amount, salt@),
{
    let bytes = commitment_preimage_bytes(secret_key, collateral_amount, debt_amount, salt);
    sha256_digest(bytes.as_slice())
}

/// Computes the nullifier that marks a note as spent.
pub fn hash_nullifier(secret_key: &[u8; 32], salt: &[u8; 32]) -> (digest: [u8; 32])
    ensures
        digest@ == nullifier_of(secret_key@, salt@),
{
    let bytes = nullifier_preimage_bytes(secret_key, salt);
    sha256_digest(bytes.as_slice())
}

/// Tells whether the secret opens the commitment: the commitment to the
/// note is computed again and compared in all of its 32 bytes.
pub fn verify_note_ownership(
    secret_key: &[u8; 32],
    collateral_amount: u128,
    debt_amount: u128,
    salt: &[u8; 32],
    expected_commitment: &[u8; 32],
) -> (owned: bool)
    ensures
        owned == owns_note(
            secret_key@,
            collateral_amount,
            debt_amount,
            salt@,
            expected_commitment@,
        ),
{
    let computed = hash_commitment(secret_key, collateral_amount, debt_amount, salt);
    bytes_equal(&computed, expected_commitment)
}

/// A commitment's preimage has 96 bytes and a nullifier's has 73.
pub proof fn lemma_preimage_lengths(
    secret_key: [u8; 32],
    collateral_amount: u128,
    debt_amount: u128,
    salt: [u8; 32],
)
    ensures
        commitment_preimage(secret_key@, collateral_amount, debt_amount, salt@).len() == 96,
        nullifier_preimage(secret_key@, salt@).len() == 73,
{
    lemma_le_bytes_len(collateral_amount as nat, 16);
    lemma_le_bytes_len(debt_amount as nat, 16);
}

/// Every field of a note can be read off its commitment's preimage: two
/// notes with the same preimage agree in secret, collateral, debt and salt.
pub proof fn lemma_commitment_preimage_injective(
    secret_a: [u8; 32],
    collateral_a: u128,
    debt_a: u128,
    salt_a: [u8; 32],
    secret_b: [u8; 32],
    collateral_b: u128,
    debt_b: u128,
    salt_b: [u8; 32],
)
    requires
        commitment_preimage(secret_a@, collateral_a, debt_a, salt_a@) == commitment_preimage(
            secret_b@,
            collateral_b,
            debt_b,
            salt_b@,
        ),
    ensures
        secret_a == secret_b,
        collateral_a == collateral_b,
        debt_a == debt_b,
        salt_a == salt_b,
{
    let pa = commitment_preimage(secret_a@, collateral_a, debt_a, salt_a@);
    let pb = commitment_preimage(secret_b@, collateral_b, debt_b, salt_b@);
    lemma_le_bytes_len(collateral_a as nat, 16);
    lemma_le_bytes_len(debt_a as nat, 16);
    lemma_le_bytes_len(collateral_b as nat, 16);
    lemma_le_bytes_len(debt_b as nat, 16);
    assert(pa.subrange(0, 32) == secret_a@);
    assert(pb.subrange(0, 32) == secret_b@);
    assert(pa.subrange(32, 48) == le_bytes(collateral_a as nat, 16));
    assert(pb.subrange(32, 48) == le_bytes(collateral_b as nat, 16));
    assert(pa.subrange(48, 64) == le_bytes(debt_a as nat, 16));
    assert(pb.subrange(48, 64) == le_bytes(debt_b as nat, 16));
    assert(pa.subrange(64, 96) == salt_a@);
    assert(pb.subrange(64, 96) == salt_b@);
    lemma_le_bytes_u128_injective(collateral_a, collateral_b);
    lemma_le_bytes_u128_injective(debt_a, debt_b);
    assert(secret_a =~= secret_b);
    assert(salt_a =~= salt_b);
}

/// Domain separation: no commitment is taken over the bytes of a
/// nullifier, so a commitment equals a nullifier only where SHA-256 itself
/// collides on the two preimages.
pub proof fn lemma_domain_separation(
    secret_key: [u8; 32],
    collateral_amount: u128,
    debt_amount: u128,
    salt: [u8; 32],
    nullifier_secret: [u8; 32],
    nullifier_salt: [u8; 32],
)
    ensures
        commitment_preimage(secret_key@, collateral_amount, debt_amount, salt@)
            != nullifier_preimage(nullifier_secret@, nullifier_salt@),
        commitment_of(secret_key@, collateral_amount, debt_amount, salt@) == nullifier_of(
            nullifier_secret@,
            nullifier_salt@,
        ) ==> sha256_collision(
            commitment_preimage(secret_key@, collateral_amount, debt_amount, salt@),
            nullifier_preimage(nullifier_secret@, nullifier_salt@),
        ),
{
    lemma_preimage_lengths(secret_key, collateral_amount, debt_amount, salt);
    lemma_preimage_lengths(nullifier_secret, collateral_amount, debt_amount, nullifier_salt);
}

/// The owner is always accepted: the secret that made a commitment opens it.
pub proof fn lemma_owner_is_accepted(
    secret_key: [u8; 32],
    collateral_amount: u128,
    debt_amount: u128,
    salt: [u8; 32],
)
    ensures
        owns_note(
            secret_key@,
            collateral_amount,
            debt_amount,
            salt@,
            commitment_of(secret_key@, collateral_amount, debt_amount, salt@),
        ),
{
}

/// Another secret opens a commitment only by a collision of SHA-256: the
/// two secrets give different preimages, so the check can only pass where
/// the hash itself fails to tell them apart.
pub proof fn lemma_other_secret_needs_collision(
    secret_key: [u8; 32],
    other_secret: [u8; 32],
    collateral_amount: u128,
    debt_amount: u128,
    salt: [u8; 32],
)
    requires
        other_secret != secret_key,
    ensures
        commitment_preimage(other_secret@, collateral_amount, debt_amount, salt@)
            != commitment_preimage(secret_key@, collateral_amount, debt_amount, salt@),
        owns_note(
            other_secret@,
            collateral_amount,
            debt_amount,
            salt@,
            commitment_of(secret_key@, collateral_amount, debt_amount, salt@),
        ) ==> sha256_collision(
            commitment_preimage(other_secret@, collateral_amount, debt_amount, salt@),
            commitment_preimage(secret_key@, collateral_amount, debt_amount, salt@),
        ),
{
    if commitment_preimage(other_secret@, collateral_amount, debt_amount, salt@)
        == commitment_preimage(secret_key@, collateral_amount, debt_amount, salt@) {
        lemma_commitment_preimage_injective(
            other_secret,
            collateral_amount,
            debt_amount,
            salt,
            secret_key,
            collateral_amount,
            debt_amount,
            salt,
        );
    }
}

/// Two different notes have the same commitment only by a collision of
/// SHA-256.
pub proof fn lemma_commitment_binds_note(
    secret_a: [u8; 32],
    collateral_a: u128,
    debt_a: u128,
    salt_a: [u8; 32],
    secret_b: [u8; 32],
    collateral_b: u128,
    debt_b: u128,
    salt_b: [u8; 32],
)
    requires
        commitment_of(secret_a@, collateral_a, debt_a, salt_a@) == commitment_of(
            secret_b@,
            collateral_b,
            debt_b,
            salt_b@,
        ),
    ensures
        (secret_a == secret_b && collateral_a == collateral_b && debt_a == debt_b && salt_a
            == salt_b) || sha256_collision(
            commitment_preimage(secret_a@, collateral_a, debt_a, salt_a@),
            commitment_preimage(secret_b@, collateral_b, debt_b, salt_b@),
        ),
{
    if commitment_preimage(secret_a@, collateral_a, debt_a, salt_a@) == commitment_preimage(
        secret_b@,
        collateral_b,
        debt_b,
        salt_b@,
    ) {
        lemma_commitment_preimage_injective(
            secret_a,
            collateral_a,
            debt_a,
            salt_a,
            secret_b,
            collateral_b,
            debt_b,
            salt_b,
        );
    }
}

/// Both digests are functions of the note's fields alone: the same fields
/// give the same commitment and the same nullifier, byte for byte.
pub proof fn lemma_same_note_same_digests(
    secret_a: [u8; 32],
    collateral_a: u128,
    debt_a: u128,
    salt_a: [u8; 32],
    secret_b: [u8; 32],
    collateral_b: u128,
    debt_b: u128,
    salt_b: [u8; 32],
)
    requires
        secret_a@ == secret_b@,
        collateral_a == collateral_b,
        debt_a == debt_b,
        salt_a@ == salt_b@,
    ensures
        commitment_of(secret_a@, collateral_a, debt_a, salt_a@) == commitment_of(
            secret_b@,
            collateral_b,
            debt_b,
            salt_b@,
        ),
        nullifier_of(secret_a@, salt_a@) == nullifier_of(secret_b@, salt_b@),
{
}

} // verus!
