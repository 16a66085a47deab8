//! The token transfer: a balance-based operation with digests of its own,
//! apart from the notes of the lending ledger.

use crate::bytes::{
    append_bytes, append_le, is_all_zero, le_bytes, lemma_le_bytes_len,
    lemma_le_bytes_u128_injective, lemma_le_bytes_u64_injective, zeros,
};
use crate::hash::{sha256, sha256_collision, sha256_digest};
use vstd::prelude::*;

verus! {

/// The private input of a transfer.
#[derive(Debug, Clone, Copy, PartialEq, Eq)]
pub struct TransferInput {
    /// The sender's secret.
    pub sender_secret: [u8; 32],
    /// The sender's balance before the transfer.
    pub sender_balance: u128,
    /// The amount to transfer.
    pub transfer_amount: u128,
    /// The token being transferred.
    pub token_address: [u8; 20],
    /// The address that receives the tokens.
    pub recipient_address: [u8; 20],
    /// A free-form memo.
    pub memo: [u8; 32],
    /// A number that keeps equal transfers apart.
    pub nonce: u64,
}

/// The public record of a transfer.
#[derive(Debug, Clone, Copy, PartialEq, Eq)]
pub struct TransferOutput {
    /// The digest of the transfer's details.
    pub transfer_hash: [u8; 32],
    /// The digest of the sender's secret and balance.
    pub sender_commitment: [u8; 32],
    /// 1 if the transfer is accepted, 0 if not.
    pub is_valid: u8,
}

/// What a transfer record says, with its digests as byte strings.
pub struct TransferRecord {
    /// The bytes of the transfer hash.
    pub transfer_hash: Seq<u8>,
    /// The bytes of the sender's commitment.
    pub sender_commitment: Seq<u8>,
    /// The validity flag.
    pub valid: u8,
}

impl View for TransferOutput {
    type V = TransferRecord;

    open spec fn view(&self) -> TransferRecord {
        TransferRecord {
            transfer_hash: self.transfer_hash@,
            sender_commitment: self.sender_commitment@,
            valid: self.is_valid,
        }
    }
}

/// The rule of a transfer: the balance covers the amount, the amount is
/// not zero, and the recipient is not the all-zero address.
pub open spec fn transfer_allowed(
    sender_balance: u128,
    transfer_amount: u128,
    recipient_address: Seq<u8>,
) -> bool {
    &&& sender_balance >= transfer_amount
    &&& transfer_amount > 0
    &&& recipient_address != zeros(20)
}

/// The byte string the sender's commitment is the digest of: the secret
/// and the balance as 16 little-endian bytes.
pub open spec fn sender_commitment_preimage(sender_secret: Seq<u8>, sender_balance: u128) -> Seq<
    u8,
> {
    sender_secret + le_bytes(sender_balance as nat, 16)
}

/// The commitment to the sender's secret and balance.
pub open spec fn sender_commitment_of(sender_secret: Seq<u8>, sender_balance: u128) -> Seq<u8> {
    sha256(sender_commitment_preimage(sender_secret, sender_balance))
}

/// The byte string the transfer hash is the digest of. It holds the
/// sender's commitment in place of the secret, then the amount as 16
/// little-endian bytes, the token, the recipient, the memo and the nonce as
/// 8 little-endian bytes.
pub open spec fn transfer_preimage(
    sender_commitment: Seq<u8>,
    transfer_amount: u128,
    token_address: Seq<u8>,
    recipient_address: Seq<u8>,
    memo: Seq<u8>,
    nonce: u64,
) -> Seq<u8> {
    sender_commitment + le_bytes(transfer_amount as nat, 16) + token_address + recipient_address
        + memo + le_bytes(nonce as nat, 8)
}

/// The digest of a transfer's details, given the sender's commitment.
pub open spec fn transfer_hash_of(
    sender_commitment: Seq<u8>,
    transfer_amount: u128,
    token_address: Seq<u8>,
    recipient_address: Seq<u8>,
    memo: Seq<u8>,
    nonce: u64,
) -> Seq<u8> {
    sha256(
        transfer_preimage(
            sender_commitment,
            transfer_amount,
            token_address,
            recipient_address,
            memo,
            nonce,
        ),
    )
}

/// The record that a transfer ends in. Both digests are there whether or
/// not the transfer is accepted.
pub open spec fn transfer_record(input: TransferInput) -> TransferRecord {
    let sender_commitment = sender_commitment_of(input.sender_secret@, input.sender_balance);
    TransferRecord {
        transfer_hash: transfer_hash_of(
            sender_commitment,
            input.transfer_amount,
            input.token_address@,
            input.recipient_address@,
            input.memo@,
            input.nonce,
        ),
        sender_commitment,
        valid: if transfer_allowed(
            input.sender_balance,
            input.transfer_amount,
            input.recipient_address@,
        ) {
            1
        } else {
            0
        },
    }
}

/// Checks the rule of a transfer. All three conditions are evaluated,
/// whichever of them fails.
pub fn transfer_is_allowed(
    sender_balance: u128,
    transfer_amount: u128,
    recipient_address: &[u8; 20],
) -> (allowed: bool)
    ensures
        allowed == transfer_allowed(sender_balance, transfer_amount, recipient_address@),
{
    let has_sufficient_balance = sender_balance >= transfer_amount;
    let is_nonzero_amount = transfer_amount > 0;
    let is_valid_recipient = !is_all_zero(recipient_address);
    has_sufficient_balance && is_nonzero_amount && is_valid_recipient
}

/// Lays out the bytes that the sender's commitment is the digest of.
pub fn sender_commitment_preimage_bytes(sender_secret: &[u8; 32], sender_balance: u128) -> (bytes:
    Vec<u8>)
    ensures
        bytes@ == sender_commitment_preimage(sender_secret@, sender_balance),
{
    let mut bytes: Vec<u8> = Vec::new();
    append_bytes(&mut bytes, sender_secret.as_slice());
    append_le(&mut bytes, sender_balance, 16);
    bytes
}

/// Lays out the bytes that the transfer hash is the digest of.
pub fn transfer_preimage_bytes(
    sender_commitment: &[u8; 32],
    transfer_amount: u128,
    token_address: &[u8; 20],
    recipient_address: &[u8; 20],
    memo: &[u8; 32],
    nonce: u64,
) -> (bytes: Vec<u8>)
    ensures
        bytes@ == transfer_preimage(
            sender_commitment@,
            transfer_amount,
            token_address@,
            recipient_address@,
            memo@,
            nonce,
        ),
{
    let mut bytes: Vec<u8> = Vec::new();
    append_bytes(&mut bytes, sender_commitment.as_slice());
    append_le(&mut bytes, transfer_amount, 16);
    append_bytes(&mut bytes, token_address.as_slice());
    append_bytes(&mut bytes, recipient_address.as_slice());
    append_bytes(&mut bytes, memo.as_slice());
    append_le(&mut bytes, nonce as u128, 8);
    bytes
}

/// Builds the record of a finished transfer from its digests and the
/// outcome of the rule.
pub fn transfer_output(transfer_hash: [u8; 32], sender_commitment: [u8; 32], allowed: bool) -> (out:
    TransferOutput)
    ensures
        out.transfer_hash == transfer_hash,
        out.sender_commitment == sender_commitment,
        out.is_valid == if allowed { 1u8 } else { 0u8 },
{
    TransferOutput { transfer_hash, sender_commitment, is_valid: if allowed { 1 } else { 0 } }
}

/// Validates a transfer and derives its two digests.
///
/// The digests are computed whether or not the transfer is accepted; only
/// the validity flag tells the outcomes apart.
pub fn verify_transfer(input: &TransferInput) -> (out: TransferOutput)
    ensures
        out@ == transfer_record(*input),
{
    let allowed = transfer_is_allowed(
        input.sender_balance,
        input.transfer_amount,
        &input.recipient_address,
    );
    let commitment_bytes = sender_commitment_preimage_bytes(
        &input.sender_secret,
        input.sender_balance,
    );
    let sender_commitment = sha256_digest(commitment_bytes.as_slice());
    let transfer_bytes = transfer_preimage_bytes(
        &sender_commitment,
        input.transfer_amount,
        &input.token_address,
        &input.recipient_address,
        &input.memo,
        input.nonce,
    );
    let transfer_hash = sha256_digest(transfer_bytes.as_slice());
    transfer_output(transfer_hash, sender_commitment, allowed)
}

/// A transfer is accepted exactly when all three conditions hold; each of
/// them alone is enough to reject it.
pub proof fn lemma_transfer_validity_conjunction(input: TransferInput)
    ensures
        transfer_record(input).valid == 1 || transfer_record(input).valid == 0,
        transfer_record(input).valid == 1 <==> (input.sender_balance >= input.transfer_amount
            && input.transfer_amount > 0 && input.recipient_address@ != zeros(20)),
        input.sender_balance < input.transfer_amount ==> transfer_record(input).valid == 0,
        input.transfer_amount == 0 ==> transfer_record(input).valid == 0,
        input.recipient_address@ == zeros(20) ==> transfer_record(input).valid == 0,
{
}

/// The transfer hash reaches the sender's secret only through the
/// sender's commitment: two transfers with the same commitment and details
/// have the same hash, whatever their secrets.
pub proof fn lemma_transfer_hash_chains_through_commitment(a: TransferInput, b: TransferInput)
    requires
        transfer_record(a).sender_commitment == transfer_record(b).sender_commitment,
        a.transfer_amount == b.transfer_amount,
        a.token_address == b.token_address,
        a.recipient_address == b.recipient_address,
        a.memo == b.memo,
        a.nonce == b.nonce,
    ensures
        transfer_record(a).transfer_hash == transfer_record(b).transfer_hash,
{
}

/// Both digests are there whether or not the transfer is accepted: the
/// commitment is that of the sender's secret and balance, and the hash is
/// taken over that commitment and the details, whatever the flag says.
pub proof fn lemma_transfer_digests_unconditional(input: TransferInput)
    ensures
        transfer_record(input).sender_commitment == sender_commitment_of(
            input.sender_secret@,
            input.sender_balance,
        ),
        transfer_record(input).transfer_hash == transfer_hash_of(
            sender_commitment_of(input.sender_secret@, input.sender_balance),
            input.transfer_amount,
            input.token_address@,
            input.recipient_address@,
            input.memo@,
            input.nonce,
        ),
{
}

/// The sender's secret and balance can be read off the preimage of the
/// sender's commitment.
pub proof fn lemma_sender_commitment_preimage_injective(
    secret_a: [u8; 32],
    balance_a: u128,
    secret_b: [u8; 32],
    balance_b: u128,
)
    requires
        sender_commitment_preimage(secret_a@, balance_a) == sender_commitment_preimage(
            secret_b@,
            balance_b,
        ),
    ensures
        secret_a == secret_b,
        balance_a == balance_b,
{
    let pa = sender_commitment_preimage(secret_a@, balance_a);
    let pb = sender_commitment_preimage(secret_b@, balance_b);
    lemma_le_bytes_len(balance_a as nat, 16);
    lemma_le_bytes_len(balance_b as nat, 16);
    assert(pa.subrange(0, 32) == secret_a@);
    assert(pb.subrange(0, 32) == secret_b@);
    assert(pa.subrange(32, 48) == le_bytes(balance_a as nat, 16));
    assert(pb.subrange(32, 48) == le_bytes(balance_b as nat, 16));
    lemma_le_bytes_u128_injective(balance_a, balance_b);
    assert(secret_a =~= secret_b);
}

/// Every detail of a transfer can be read off the preimage of its hash.
pub proof fn lemma_transfer_preimage_injective(
    commitment_a: [u8; 32],
    a: TransferInput,
    commitment_b: [u8; 32],
    b: TransferInput,
)
    requires
        transfer_preimage(
            commitment_a@,
            a.transfer_amount,
            a.token_address@,
            a.recipient_address@,
            a.memo@,
            a.nonce,
        ) == transfer_preimage(
            commitment_b@,
            b.transfer_amount,
            b.token_address@,
            b.recipient_address@,
            b.memo@,
            b.nonce,
        ),
    ensures
        commitment_a == commitment_b,
        a.transfer_amount == b.transfer_amount,
        a.token_address == b.token_address,
        a.recipient_address == b.recipient_address,
        a.memo == b.memo,
        a.nonce == b.nonce,
{
    let pa = transfer_preimage(
        commitment_a@,
        a.transfer_amount,
        a.token_address@,
        a.recipient_address@,
        a.memo@,
        a.nonce,
    );
    let pb = transfer_preimage(
        commitment_b@,
        b.transfer_amount,
        b.token_address@,
        b.recipient_address@,
        b.memo@,
        b.nonce,
    );
    lemma_le_bytes_len(a.transfer_amount as nat, 16);
    lemma_le_bytes_len(b.transfer_amount as nat, 16);
    lemma_le_bytes_len(a.nonce as nat, 8);
    lemma_le_bytes_len(b.nonce as nat, 8);
    assert(pa.subrange(0, 32) == commitment_a@);
    assert(pb.subrange(0, 32) == commitment_b@);
    assert(pa.subrange(32, 48) == le_bytes(a.transfer_amount as nat, 16));
    assert(pb.subrange(32, 48) == le_bytes(b.transfer_amount as nat, 16));
    assert(pa.subrange(48, 68) == a.token_address@);
    assert(pb.subrange(48, 68) == b.token_address@);
    assert(pa.subrange(68, 88) == a.recipient_address@);
    assert(pb.subrange(68, 88) == b.recipient_address@);
    assert(pa.subrange(88, 120) == a.memo@);
    assert(pb.subrange(88, 120) == b.memo@);
    assert(pa.subrange(120, 128) == le_bytes(a.nonce as nat, 8));
    assert(pb.subrange(120, 128) == le_bytes(b.nonce as nat, 8));
    lemma_le_bytes_u128_injective(a.transfer_amount, b.transfer_amount);
    lemma_le_bytes_u64_injective(a.nonce, b.nonce);
    assert(commitment_a =~= commitment_b);
    assert(a.token_address =~= b.token_address);
    assert(a.recipient_address =~= b.recipient_address);
    assert(a.memo =~= b.memo);
}

/// The sender's commitment binds the secret and the balance: two senders
/// with the same commitment are the same, or SHA-256 collides on their
/// preimages.
pub proof fn lemma_sender_commitment_binds(
    secret_a: [u8; 32],
    balance_a: u128,
    secret_b: [u8; 32],
    balance_b: u128,
)
    requires
        sender_commitment_of(secret_a@, balance_a) == sender_commitment_of(secret_b@, balance_b),
    ensures
        (secret_a == secret_b && balance_a == balance_b) || sha256_collision(
            sender_commitment_preimage(secret_a@, balance_a),
            sender_commitment_preimage(secret_b@, balance_b),
        ),
{
    if sender_commitment_preimage(secret_a@, balance_a) == sender_commitment_preimage(
        secret_b@,
        balance_b,
    ) {
        lemma_sender_commitment_preimage_injective(secret_a, balance_a, secret_b, balance_b);
    }
}

} // verus!
