//! The life of a note: a deposit creates one without debt, and a borrow
//! spends one and puts another, with a higher debt, in its place.

use crate::crypto::{commitment_of, hash_commitment, hash_nullifier, nullifier_of};
use crate::dispatch::{borrow_record, debt_after_borrow, deposit_record};
use crate::types::{BorrowInput, DepositInput, Note};
use vstd::prelude::*;

verus! {

impl Note {
    /// The commitment that stands for the note on the ledger.
    pub open spec fn commitment(self) -> Seq<u8> {
        commitment_of(self.user_secret_key@, self.collateral_amount, self.debt_amount, self.salt@)
    }

    /// The nullifier that marks the note as spent.
    pub open spec fn nullifier(self) -> Seq<u8> {
        nullifier_of(self.user_secret_key@, self.salt@)
    }

    /// Computes the commitment to the note.
    pub fn commitment_hash(&self) -> (digest: [u8; 32])
        ensures
            digest@ == self.commitment(),
    {
        hash_commitment(&self.user_secret_key, self.collateral_amount, self.debt_amount, &self.salt)
    }

    /// Computes the nullifier of the note.
    pub fn nullifier_hash(&self) -> (digest: [u8; 32])
        ensures
            digest@ == self.nullifier(),
    {
        hash_nullifier(&self.user_secret_key, &self.salt)
    }
}

/// The note that a deposit creates: the collateral put down and no debt.
pub open spec fn deposited_note(input: DepositInput) -> Note {
    Note {
        user_secret_key: input.user_secret_key,
        collateral_amount: input.collateral_amount,
        debt_amount: 0,
        salt: input.note_salt,
    }
}

/// The note that a borrow spends.
pub open spec fn spent_note(input: BorrowInput) -> Note {
    Note {
        user_secret_key: input.user_secret_key,
        collateral_amount: input.collateral_amount,
        debt_amount: input.existing_debt,
        salt: input.old_note_salt,
    }
}

/// The note that a borrow creates: the same owner and collateral, the debt
/// raised by the amount borrowed, and the new salt.
pub open spec fn borrowed_note(input: BorrowInput) -> Note {
    Note {
        user_secret_key: input.user_secret_key,
        collateral_amount: input.collateral_amount,
        debt_amount: debt_after_borrow(input),
        salt: input.new_note_salt,
    }
}

/// An accepted deposit publishes the commitment to the note it creates.
pub proof fn lemma_deposit_commits_to_its_note(input: DepositInput)
    requires
        input.collateral_amount != 0,
    ensures
        deposit_record(input).commitment == deposited_note(input).commitment(),
        deposit_record(input).valid == 1,
{
}

/// A borrow publishes the nullifier of the note it spends and the
/// commitment to the note it creates, and the new note's debt is never
/// below the old one's.
pub proof fn lemma_borrow_replaces_its_note(input: BorrowInput)
    ensures
        borrow_record(input).nullifier == spent_note(input).nullifier(),
        borrow_record(input).new_commitment == borrowed_note(input).commitment(),
        borrowed_note(input).debt_amount >= spent_note(input).debt_amount,
        borrowed_note(input).debt_amount >= input.new_borrow_amount,
{
}

/// A borrow against the note of an earlier deposit spends exactly that
/// note: its nullifier is the nullifier of the deposited note.
pub proof fn lemma_borrow_spends_deposited_note(deposit: DepositInput, borrow: BorrowInput)
    requires
        borrow.user_secret_key == deposit.user_secret_key,
        borrow.old_note_salt == deposit.note_salt,
    ensures
        borrow_record(borrow).nullifier == deposited_note(deposit).nullifier(),
{
}

} // verus!
