//! The cryptographic hash that every digest of this library goes through.

use sha2::{Digest, Sha256};
use vstd::prelude::*;

verus! {

/// The SHA-256 digest of `message`.
///
/// The function itself is computed by the `sha2` crate and is left
/// uninterpreted here: contracts speak of it by name only.
pub uninterp spec fn sha256(message: Seq<u8>) -> Seq<u8>;

/// Two different messages with the same SHA-256 digest.
pub open spec fn sha256_collision(a: Seq<u8>, b: Seq<u8>) -> bool {
    a != b && sha256(a) == sha256(b)
}

/// Hashes `message` with `sha2::Sha256::digest`, which feeds the whole
/// message to a fresh hasher and finalizes it.
///
/// Trusted, not proved: the 32 bytes that `Sha256::digest` returns are
/// taken to be `sha256` of the message. Nothing more is claimed of them
/// than that they depend on the bytes of the message alone.
#[verifier::external_body]
pub(crate) fn sha256_digest(message: &[u8]) -> (digest: [u8; 32])
    ensures
        digest@ == sha256(message@),
{
    Sha256::digest(message).into()
}

} // verus!
