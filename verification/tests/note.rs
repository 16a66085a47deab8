use zk_program::crypto::{hash_commitment, hash_nullifier, verify_note_ownership};
use zk_program::dispatch::{handle_borrow, handle_deposit};
use zk_program::types::{BorrowInput, DepositInput, Note};

const TEN_UNITS: u128 = 10_000_000_000_000_000_000;

#[test]
fn note_digests_are_those_of_its_fields() {
    let note = Note {
        user_secret_key: [1u8; 32],
        collateral_amount: 1000,
        debt_amount: 500,
        salt: [2u8; 32],
    };
    assert_eq!(note.commitment_hash(), hash_commitment(&[1u8; 32], 1000, 500, &[2u8; 32]));
    assert_eq!(note.nullifier_hash(), hash_nullifier(&[1u8; 32], &[2u8; 32]));
    assert_eq!(note.commitment_hash()[0], 0x4b);
    assert_eq!(note.nullifier_hash()[0], 0xd7);
    assert_ne!(note.commitment_hash(), note.nullifier_hash());
}

#[test]
fn deposit_then_borrow_follows_the_note() {
    let secret = [1u8; 32];
    let deposited = Note {
        user_secret_key: secret,
        collateral_amount: TEN_UNITS,
        debt_amount: 0,
        salt: [42u8; 32],
    };
    let deposit = handle_deposit(&DepositInput {
        user_secret_key: secret,
        collateral_amount: TEN_UNITS,
        note_salt: [42u8; 32],
    });
    assert_eq!(deposit.is_valid, 1);
    assert_eq!(deposit.commitment_hash, deposited.commitment_hash());
    assert!(verify_note_ownership(&secret, TEN_UNITS, 0, &[42u8; 32], &deposit.commitment_hash));

    let borrow = handle_borrow(&BorrowInput {
        user_secret_key: secret,
        collateral_amount: TEN_UNITS,
        collateral_price_usd: 2_500_000_000,
        existing_debt: 0,
        new_borrow_amount: 5_000_000_000,
        max_ltv_bps: 7500,
        old_note_salt: [42u8; 32],
        new_note_salt: [43u8; 32],
        recipient_address: [0x12u8; 20],
    });
    let borrowed = Note {
        user_secret_key: secret,
        collateral_amount: TEN_UNITS,
        debt_amount: 5_000_000_000,
        salt: [43u8; 32],
    };
    assert_eq!(borrow.is_valid, 1);
    assert_eq!(borrow.nullifier_hash, deposited.nullifier_hash());
    assert_eq!(borrow.new_commitment_hash, borrowed.commitment_hash());
    assert!(verify_note_ownership(
        &secret,
        TEN_UNITS,
        5_000_000_000,
        &[43u8; 32],
        &borrow.new_commitment_hash
    ));
    assert!(!verify_note_ownership(
        &secret,
        TEN_UNITS,
        0,
        &[43u8; 32],
        &borrow.new_commitment_hash
    ));
}
