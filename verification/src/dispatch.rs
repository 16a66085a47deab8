//! The operations of the engine and the one public record that each of
//! them ends in.
//!
//! No operation fails: a rejected one ends in a well-formed record whose
//! validity flag is 0.

use crate::bytes::zeros;
use crate::crypto::{commitment_of, hash_commitment, hash_nullifier, nullifier_of};
use crate::ltv::{check_ltv, ltv_safe};
use crate::transfer::{
    transfer_record, verify_transfer, TransferInput, TransferOutput, TransferRecord,
};
use crate::types::{
    BorrowInput, BorrowOutput, BorrowRecord, DepositInput, DepositOutput, DepositRecord,
};
use vstd::prelude::*;

verus! {

/// The selector byte of a deposit.
pub const SELECTOR_DEPOSIT: u8 = 0;

/// The selector byte of a borrow.
pub const SELECTOR_BORROW: u8 = 1;

/// The selector byte of a transfer.
pub const SELECTOR_TRANSFER: u8 = 2;

/// Which operation a selector byte asks for.
#[derive(Debug, Clone, Copy, PartialEq, Eq)]
pub enum OperationKind {
    Deposit,
    Borrow,
    Transfer,
    /// Any selector that names no operation.
    Unknown,
}

/// An operation with its private input.
#[derive(Debug, Clone, Copy, PartialEq, Eq)]
pub enum Operation {
    Deposit(DepositInput),
    Borrow(BorrowInput),
    Transfer(TransferInput),
    /// An operation that no selector names; it is always rejected.
    Unknown,
}

/// The public record of an operation. An unknown operation ends in a
/// rejected deposit record.
#[derive(Debug, Clone, Copy, PartialEq, Eq)]
pub enum OperationOutput {
    Deposit(DepositOutput),
    Borrow(BorrowOutput),
    Transfer(TransferOutput),
}

/// What the public record of an operation says.
pub enum OperationRecord {
    Deposit(DepositRecord),
    Borrow(BorrowRecord),
    Transfer(TransferRecord),
}

impl View for OperationOutput {
    type V = OperationRecord;

    open spec fn view(&self) -> OperationRecord {
        match *self {
            OperationOutput::Deposit(out) => OperationRecord::Deposit(out@),
            OperationOutput::Borrow(out) => OperationRecord::Borrow(out@),
            OperationOutput::Transfer(out) => OperationRecord::Transfer(out@),
        }
    }
}

impl OperationRecord {
    /// The validity flag of the record.
    pub open spec fn valid(self) -> u8 {
        match self {
            OperationRecord::Deposit(record) => record.valid,
            OperationRecord::Borrow(record) => record.valid,
            OperationRecord::Transfer(record) => record.valid,
        }
    }
}

/// The operation that `selector` names: 0 a deposit, 1 a borrow, 2 a
/// transfer, and nothing else any.
pub open spec fn kind_of_selector(selector: u8) -> OperationKind {
    if selector == SELECTOR_DEPOSIT {
        OperationKind::Deposit
    } else if selector == SELECTOR_BORROW {
        OperationKind::Borrow
    } else if selector == SELECTOR_TRANSFER {
        OperationKind::Transfer
    } else {
        OperationKind::Unknown
    }
}

/// The sum of two debts, clamped to `u128::MAX`.
pub open spec fn saturating_sum(a: u128, b: u128) -> u128 {
    if a + b > u128::MAX {
        u128::MAX
    } else {
        (a + b) as u128
    }
}

/// The record of a rejected deposit and of an unknown operation: 32 zero
/// bytes and the flag 0.
pub open spec fn rejected_record() -> DepositRecord {
    DepositRecord { commitment: zeros(32), valid: 0 }
}

/// The record that a deposit ends in: the commitment to a note without
/// debt, or the rejected record where no collateral is put down.
pub open spec fn deposit_record(input: DepositInput) -> DepositRecord {
    if input.collateral_amount == 0 {
        rejected_record()
    } else {
        DepositRecord {
            commitment: commitment_of(
                input.user_secret_key@,
                input.collateral_amount,
                0,
                input.note_salt@,
            ),
            valid: 1,
        }
    }
}

/// The debt of the note that a borrow creates.
pub open spec fn debt_after_borrow(input: BorrowInput) -> u128 {
    saturating_sum(input.existing_debt, input.new_borrow_amount)
}

/// Whether the position that a borrow creates is safe.
pub open spec fn borrow_allowed(input: BorrowInput) -> bool {
    ltv_safe(
        input.collateral_amount,
        input.collateral_price_usd,
        debt_after_borrow(input),
        input.max_ltv_bps,
    )
}

/// The record that a borrow ends in. The nullifier of the old note and the
/// commitment to the new one are there whether or not the borrow is
/// accepted.
pub open spec fn borrow_record(input: BorrowInput) -> BorrowRecord {
    BorrowRecord {
        nullifier: nullifier_of(input.user_secret_key@, input.old_note_salt@),
        new_commitment: commitment_of(
            input.user_secret_key@,
            input.collateral_amount,
            debt_after_borrow(input),
            input.new_note_salt@,
        ),
        recipient: input.recipient_address@,
        borrow_amount: input.new_borrow_amount,
        valid: if borrow_allowed(input) {
            1
        } else {
            0
        },
    }
}

/// The record that an operation ends in.
pub open spec fn operation_record(operation: Operation) -> OperationRecord {
    match operation {
        Operation::Deposit(input) => OperationRecord::Deposit(deposit_record(input)),
        Operation::Borrow(input) => OperationRecord::Borrow(borrow_record(input)),
        Operation::Transfer(input) => OperationRecord::Transfer(transfer_record(input)),
        Operation::Unknown => OperationRecord::Deposit(rejected_record()),
    }
}

/// Reads the selector byte.
pub fn operation_kind(selector: u8) -> (kind: OperationKind)
    ensures
        kind == kind_of_selector(selector),
{
    if selector == SELECTOR_DEPOSIT {
        OperationKind::Deposit
    } else if selector == SELECTOR_BORROW {
        OperationKind::Borrow
    } else if selector == SELECTOR_TRANSFER {
        OperationKind::Transfer
    } else {
        OperationKind::Unknown
    }
}

/// The all-zero record that stands for a rejected deposit or an unknown
/// operation.
pub fn rejected_output() -> (out: DepositOutput)
    ensures
        out@ == rejected_record(),
{
    let out = DepositOutput { commitment_hash: [0u8; 32], is_valid: 0 };
    assert(out.commitment_hash@ =~= zeros(32));
    out
}

/// The record of an accepted deposit: the commitment and the flag 1.
pub fn accepted_output(commitment_hash: [u8; 32]) -> (out: DepositOutput)
    ensures
        out.commitment_hash == commitment_hash,
        out.is_valid == 1,
{
    DepositOutput { commitment_hash, is_valid: 1 }
}

/// Creates the commitment to a new note without debt.
///
/// A deposit of no collateral is rejected with the all-zero record.
pub fn handle_deposit(input: &DepositInput) -> (out: DepositOutput)
    ensures
        out@ == deposit_record(*input),
{
    if input.collateral_amount == 0 {
        return rejected_output();
    }
    let commitment_hash = hash_commitment(
        &input.user_secret_key,
        input.collateral_amount,
        0,
        &input.note_salt,
    );
    accepted_output(commitment_hash)
}

/// The debt of the note that a borrow creates: the old debt and the new
/// amount, clamped where the sum does not fit.
pub fn new_total_debt(input: &BorrowInput) -> (debt: u128)
    ensures
        debt == debt_after_borrow(*input),
{
    input.existing_debt.saturating_add(input.new_borrow_amount)
}

/// Checks the new position and builds the record of a borrow around the
/// two digests.
pub fn settle_borrow(
    input: &BorrowInput,
    nullifier_hash: [u8; 32],
    new_commitment_hash: [u8; 32],
) -> (out: BorrowOutput)
    ensures
        out.nullifier_hash == nullifier_hash,
        out.new_commitment_hash == new_commitment_hash,
        out.recipient_address == input.recipient_address,
        out.borrow_amount == input.new_borrow_amount,
        out.is_valid == if borrow_allowed(*input) { 1u8 } else { 0u8 },
{
    let is_ltv_safe = check_ltv(
        input.collateral_amount,
        input.collateral_price_usd,
        new_total_debt(input),
        input.max_ltv_bps,
    );
    BorrowOutput {
        nullifier_hash,
        new_commitment_hash,
        recipient_address: input.recipient_address,
        borrow_amount: input.new_borrow_amount,
        is_valid: if is_ltv_safe { 1 } else { 0 },
    }
}

/// Spends the old note and commits to one with the higher debt.
///
/// The nullifier and the new commitment are computed in every case; the
/// validity flag alone says whether the new position is safe.
pub fn handle_borrow(input: &BorrowInput) -> (out: BorrowOutput)
    ensures
        out@ == borrow_record(*input),
{
    let nullifier_hash = hash_nullifier(&input.user_secret_key, &input.old_note_salt);
    let new_commitment_hash = hash_commitment(
        &input.user_secret_key,
        input.collateral_amount,
        new_total_debt(input),
        &input.new_note_salt,
    );
    settle_borrow(input, nullifier_hash, new_commitment_hash)
}

/// Runs one operation to its public record.
pub fn execute(operation: &Operation) -> (out: OperationOutput)
    ensures
        out@ == operation_record(*operation),
{
    match operation {
        Operation::Deposit(input) => OperationOutput::Deposit(handle_deposit(input)),
        Operation::Borrow(input) => OperationOutput::Borrow(handle_borrow(input)),
        Operation::Transfer(input) => OperationOutput::Transfer(verify_transfer(input)),
        Operation::Unknown => OperationOutput::Deposit(rejected_output()),
    }
}

/// The record of an operation is a function of the operation alone: the
/// same operation ends in the same record, byte for byte.
pub proof fn lemma_same_operation_same_record(a: Operation, b: Operation)
    requires
        a == b,
    ensures
        operation_record(a) == operation_record(b),
{
}

/// The validity flag of every record is 0 or 1.
pub proof fn lemma_valid_is_a_bit(operation: Operation)
    ensures
        operation_record(operation).valid() == 0 || operation_record(operation).valid() == 1,
{
}

/// A deposit is accepted exactly when collateral is put down, and a
/// rejected one reveals nothing: its record is all zero.
pub proof fn lemma_deposit_validity(input: DepositInput)
    ensures
        deposit_record(input).valid == 1 <==> input.collateral_amount != 0,
        deposit_record(input).valid == 0 ==> deposit_record(input).commitment == zeros(32),
{
}

/// A borrow is accepted exactly when the position with the new debt is
/// safe.
pub proof fn lemma_borrow_validity(input: BorrowInput)
    ensures
        borrow_record(input).valid == 1 <==> ltv_safe(
            input.collateral_amount,
            input.collateral_price_usd,
            saturating_sum(input.existing_debt, input.new_borrow_amount),
            input.max_ltv_bps,
        ),
{
}

/// The nullifier of a borrow is that of the old note whether the borrow is
/// accepted or not: it depends on the secret and the old salt alone.
pub proof fn lemma_borrow_nullifier_unconditional(a: BorrowInput, b: BorrowInput)
    requires
        a.user_secret_key == b.user_secret_key,
        a.old_note_salt == b.old_note_salt,
    ensures
        borrow_record(a).nullifier == nullifier_of(a.user_secret_key@, a.old_note_salt@),
        borrow_record(a).nullifier == borrow_record(b).nullifier,
{
}

} // verus!
