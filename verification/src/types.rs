//! The private inputs and public records of the lending operations.

use vstd::prelude::*;

verus! {

/// The private input of a deposit: a new note with no debt.
#[derive(Debug, Clone, Copy, PartialEq, Eq)]
pub struct DepositInput {
    /// The owner's secret, which proves ownership of the note.
    pub user_secret_key: [u8; 32],
    /// The collateral put down, in units of 10^-18.
    pub collateral_amount: u128,
    /// A random salt that keeps equal notes apart.
    pub note_salt: [u8; 32],
}

/// The private input of a borrow: one note is spent and another, with a
/// higher debt, takes its place.
#[derive(Debug, Clone, Copy, PartialEq, Eq)]
pub struct BorrowInput {
    /// The owner's secret of the note being spent.
    pub user_secret_key: [u8; 32],
    /// The collateral of the note, in units of 10^-18.
    pub collateral_amount: u128,
    /// The price of one whole unit of collateral, in units of 10^-6 dollars.
    pub collateral_price_usd: u128,
    /// The debt of the note being spent.
    pub existing_debt: u128,
    /// The amount to borrow on top of it.
    pub new_borrow_amount: u128,
    /// The highest loan-to-value ratio allowed, in basis points.
    pub max_ltv_bps: u16,
    /// The salt of the note being spent.
    pub old_note_salt: [u8; 32],
    /// The salt of the note that replaces it.
    pub new_note_salt: [u8; 32],
    /// The address that receives the borrowed funds.
    pub recipient_address: [u8; 20],
}

/// The public record of a deposit.
#[derive(Debug, Clone, Copy, PartialEq, Eq)]
pub struct DepositOutput {
    /// The commitment to the new note, or 32 zero bytes if rejected.
    pub commitment_hash: [u8; 32],
    /// 1 if the deposit is accepted, 0 if not.
    pub is_valid: u8,
}

/// The public record of a borrow.
#[derive(Debug, Clone, Copy, PartialEq, Eq)]
pub struct BorrowOutput {
    /// The nullifier of the note being spent.
    pub nullifier_hash: [u8; 32],
    /// The commitment to the note with the new debt.
    pub new_commitment_hash: [u8; 32],
    /// The address that receives the borrowed funds.
    pub recipient_address: [u8; 20],
    /// The amount borrowed.
    pub borrow_amount: u128,
    /// 1 if the new position is safe, 0 if not.
    pub is_valid: u8,
}

/// A private position.
#[derive(Debug, Clone, Copy, PartialEq, Eq)]
pub struct Note {
    /// The owner's secret.
    pub user_secret_key: [u8; 32],
    /// The collateral behind the position, in units of 10^-18.
    pub collateral_amount: u128,
    /// The debt of the position, in units of 10^-6 dollars.
    pub debt_amount: u128,
    /// The salt that keeps equal notes apart.
    pub salt: [u8; 32],
}

/// What a deposit record says, with its digest as a byte string.
pub struct DepositRecord {
    /// The bytes of the commitment.
    pub commitment: Seq<u8>,
    /// The validity flag.
    pub valid: u8,
}

/// What a borrow record says, with its digests as byte strings.
pub struct BorrowRecord {
    /// The bytes of the spent note's nullifier.
    pub nullifier: Seq<u8>,
    /// The bytes of the new note's commitment.
    pub new_commitment: Seq<u8>,
    /// The bytes of the recipient's address.
    pub recipient: Seq<u8>,
    /// The amount borrowed.
    pub borrow_amount: u128,
    /// The validity flag.
    pub valid: u8,
}

impl View for DepositOutput {
    type V = DepositRecord;

    open spec fn view(&self) -> DepositRecord {
        DepositRecord { commitment: self.commitment_hash@, valid: self.is_valid }
    }
}

impl View for BorrowOutput {
    type V = BorrowRecord;

    open spec fn view(&self) -> BorrowRecord {
        BorrowRecord {
            nullifier: self.nullifier_hash@,
            new_commitment: self.new_commitment_hash@,
            recipient: self.recipient_address@,
            borrow_amount: self.borrow_amount,
            valid: self.is_valid,
        }
    }
}

} // verus!
