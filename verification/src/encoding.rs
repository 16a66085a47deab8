//! The byte layouts in which the public records leave the engine for the
//! ledger.

use crate::bytes::{append_bytes, append_le, le_bytes, lemma_le_bytes_len,
    lemma_le_bytes_u128_injective};
use crate::types::{BorrowOutput, BorrowRecord, DepositOutput, DepositRecord};
use vstd::prelude::*;

verus! {

/// The length of an encoded deposit record.
pub const DEPOSIT_OUTPUT_LEN: usize = 33;

/// The length of an encoded borrow record.
pub const BORROW_OUTPUT_LEN: usize = 101;

/// The layout of a deposit record: the commitment and the validity flag.
pub open spec fn deposit_public_values(record: DepositRecord) -> Seq<u8> {
    record.commitment + seq![record.valid]
}

/// The layout of a borrow record: the nullifier, the new commitment, the
/// recipient, the amount as 16 little-endian bytes and the validity flag.
pub open spec fn borrow_public_values(record: BorrowRecord) -> Seq<u8> {
    record.nullifier + record.new_commitment + record.recipient + le_bytes(
        record.borrow_amount as nat,
        16,
    ) + seq![record.valid]
}

/// Encodes a deposit record in its 33 bytes.
pub fn encode_deposit_output(out: &DepositOutput) -> (bytes: Vec<u8>)
    ensures
        bytes@ == deposit_public_values(out@),
        bytes@.len() == DEPOSIT_OUTPUT_LEN,
{
    let mut bytes: Vec<u8> = Vec::new();
    append_bytes(&mut bytes, out.commitment_hash.as_slice());
    bytes.push(out.is_valid);
    assert(bytes@ == out.commitment_hash@ + seq![out.is_valid]);
    bytes
}

/// Encodes a borrow record in its 101 bytes.
pub fn encode_borrow_output(out: &BorrowOutput) -> (bytes: Vec<u8>)
    ensures
        bytes@ == borrow_public_values(out@),
        bytes@.len() == BORROW_OUTPUT_LEN,
{
    let mut bytes: Vec<u8> = Vec::new();
    append_bytes(&mut bytes, out.nullifier_hash.as_slice());
    append_bytes(&mut bytes, out.new_commitment_hash.as_slice());
    append_bytes(&mut bytes, out.recipient_address.as_slice());
    append_le(&mut bytes, out.borrow_amount, 16);
    let ghost before = bytes@;
    bytes.push(out.is_valid);
    proof {
        lemma_le_bytes_len(out.borrow_amount as nat, 16);
        assert(bytes@ == before + seq![out.is_valid]);
    }
    bytes
}

/// The layout of a borrow record loses nothing: two records with the same
/// bytes are the same record.
pub proof fn lemma_borrow_layout_injective(a: BorrowOutput, b: BorrowOutput)
    requires
        borrow_public_values(a@) == borrow_public_values(b@),
    ensures
        a == b,
{
    let ea = borrow_public_values(a@);
    let eb = borrow_public_values(b@);
    lemma_le_bytes_len(a.borrow_amount as nat, 16);
    lemma_le_bytes_len(b.borrow_amount as nat, 16);
    assert(ea.subrange(0, 32) == a.nullifier_hash@);
    assert(eb.subrange(0, 32) == b.nullifier_hash@);
    assert(ea.subrange(32, 64) == a.new_commitment_hash@);
    assert(eb.subrange(32, 64) == b.new_commitment_hash@);
    assert(ea.subrange(64, 84) == a.recipient_address@);
    assert(eb.subrange(64, 84) == b.recipient_address@);
    assert(ea.subrange(84, 100) == le_bytes(a.borrow_amount as nat, 16));
    assert(eb.subrange(84, 100) == le_bytes(b.borrow_amount as nat, 16));
    assert(ea[100] == a.is_valid);
    assert(eb[100] == b.is_valid);
    lemma_le_bytes_u128_injective(a.borrow_amount, b.borrow_amount);
    assert(a.nullifier_hash =~= b.nullifier_hash);
    assert(a.new_commitment_hash =~= b.new_commitment_hash);
    assert(a.recipient_address =~= b.recipient_address);
}

/// The layout of a deposit record loses nothing: two records with the
/// same bytes are the same record.
pub proof fn lemma_deposit_layout_injective(a: DepositOutput, b: DepositOutput)
    requires
        deposit_public_values(a@) == deposit_public_values(b@),
    ensures
        a == b,
{
    let ea = deposit_public_values(a@);
    let eb = deposit_public_values(b@);
    assert(ea.subrange(0, 32) == a.commitment_hash@);
    assert(eb.subrange(0, 32) == b.commitment_hash@);
    assert(ea[32] == a.is_valid);
    assert(eb[32] == b.is_valid);
    assert(a.commitment_hash =~= b.commitment_hash);
}

} // verus!
