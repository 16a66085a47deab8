use zk_program::transfer::{
    sender_commitment_preimage_bytes, transfer_is_allowed, transfer_output,
    transfer_preimage_bytes, verify_transfer, TransferInput,
};

const SENDER_COMMITMENT: [u8; 32] = [
    0xf0, 0x20, 0x79, 0xe3, 0xfc, 0x35, 0xdb, 0x79, 0x4d, 0x6a, 0xd4, 0x3c, 0xb9, 0x57, 0x4b, 0x11,
    0x94, 0x5c, 0xf2, 0xb0, 0xd7, 0xc5, 0x6e, 0x2d, 0xa0, 0x1b, 0xcf, 0xd7, 0xc8, 0xb8, 0xe3, 0x64,
];

const TRANSFER_HASH: [u8; 32] = [
    0xd5, 0xfa, 0x9f, 0xb1, 0x32, 0xd2, 0xe5, 0x11, 0xb4, 0x92, 0x4b, 0x1b, 0x6a, 0x65, 0x23, 0x54,
    0x63, 0xeb, 0x0b, 0x64, 0x90, 0x5d, 0xe6, 0x88, 0x86, 0x22, 0x46, 0x5b, 0x0e, 0xc7, 0x9d, 0xe3,
];

fn sample(balance: u128, amount: u128, recipient: [u8; 20]) -> TransferInput {
    TransferInput {
        sender_secret: [1u8; 32],
        sender_balance: balance,
        transfer_amount: amount,
        token_address: [0x1u8; 20],
        recipient_address: recipient,
        memo: [0u8; 32],
        nonce: 1,
    }
}

#[test]
fn test_valid_transfer() {
    let input = TransferInput {
        sender_secret: [1u8; 32],
        sender_balance: 1000,
        transfer_amount: 100,
        token_address: [0x1u8; 20],
        recipient_address: [0x2u8; 20],
        memo: [0u8; 32],
        nonce: 1,
    };

    let output = verify_transfer(&input);
    assert_eq!(output.is_valid, 1);
}

#[test]
fn test_insufficient_balance() {
    let input = TransferInput {
        sender_secret: [1u8; 32],
        sender_balance: 50,
        transfer_amount: 100,
        token_address: [0x1u8; 20],
        recipient_address: [0x2u8; 20],
        memo: [0u8; 32],
        nonce: 1,
    };

    let output = verify_transfer(&input);
    assert_eq!(output.is_valid, 0);
}

#[test]
fn test_zero_amount() {
    let input = TransferInput {
        sender_secret: [1u8; 32],
        sender_balance: 1000,
        transfer_amount: 0,
        token_address: [0x1u8; 20],
        recipient_address: [0x2u8; 20],
        memo: [0u8; 32],
        nonce: 1,
    };

    let output = verify_transfer(&input);
    assert_eq!(output.is_valid, 0);
}

#[test]
fn transfer_to_the_zero_address_is_rejected() {
    assert_eq!(verify_transfer(&sample(1000, 100, [0u8; 20])).is_valid, 0);
}

#[test]
fn transfer_of_the_whole_balance_is_accepted() {
    assert_eq!(verify_transfer(&sample(100, 100, [2u8; 20])).is_valid, 1);
    assert_eq!(verify_transfer(&sample(99, 100, [2u8; 20])).is_valid, 0);
    assert_eq!(verify_transfer(&sample(u128::MAX, u128::MAX, [2u8; 20])).is_valid, 1);
}

#[test]
fn recipient_with_one_nonzero_byte_is_no_zero_address() {
    for position in [0usize, 7, 19] {
        let mut recipient = [0u8; 20];
        recipient[position] = 1;
        assert_eq!(verify_transfer(&sample(1000, 100, recipient)).is_valid, 1);
    }
}

#[test]
fn transfer_rule_is_the_conjunction_of_three_checks() {
    let good = [2u8; 20];
    let zero = [0u8; 20];
    for (balance, amount, recipient, expected) in [
        (1000u128, 100u128, good, true),
        (50, 100, good, false),
        (1000, 0, good, false),
        (1000, 100, zero, false),
        (50, 100, zero, false),
        (1000, 0, zero, false),
        (0, 0, good, false),
        (0, 0, zero, false),
        (0, 1, zero, false),
    ] {
        assert_eq!(transfer_is_allowed(balance, amount, &recipient), expected);
        let expected_flag = if expected { 1 } else { 0 };
        assert_eq!(verify_transfer(&sample(balance, amount, recipient)).is_valid, expected_flag);
    }
}

#[test]
fn transfer_digests_are_sha256_of_their_layouts() {
    let output = verify_transfer(&sample(1000, 100, [2u8; 20]));
    assert_eq!(output.sender_commitment, SENDER_COMMITMENT);
    assert_eq!(output.transfer_hash, TRANSFER_HASH);
    assert_eq!(output.is_valid, 1);
}

#[test]
fn rejected_transfer_still_carries_its_digests() {
    // Zero amount: the commitment is that of the accepted case, the hash
    // differs with the amount.
    let rejected = verify_transfer(&sample(1000, 0, [2u8; 20]));
    assert_eq!(rejected.is_valid, 0);
    assert_eq!(rejected.sender_commitment, SENDER_COMMITMENT);
    assert_ne!(rejected.transfer_hash, [0u8; 32]);
    assert_ne!(rejected.transfer_hash, TRANSFER_HASH);
    // Zero recipient.
    let rejected = verify_transfer(&sample(1000, 100, [0u8; 20]));
    assert_eq!(rejected.is_valid, 0);
    assert_eq!(rejected.sender_commitment, SENDER_COMMITMENT);
    assert_ne!(rejected.transfer_hash, [0u8; 32]);
}

#[test]
fn transfer_is_deterministic() {
    let input = sample(1000, 100, [2u8; 20]);
    assert_eq!(verify_transfer(&input), verify_transfer(&input.clone()));
}

#[test]
fn transfer_hash_depends_on_every_detail() {
    let base = verify_transfer(&sample(1000, 100, [2u8; 20]));
    let mut other = sample(1000, 100, [2u8; 20]);
    other.nonce = 2;
    assert_ne!(verify_transfer(&other).transfer_hash, base.transfer_hash);
    assert_eq!(verify_transfer(&other).sender_commitment, base.sender_commitment);
    let mut other = sample(1000, 100, [2u8; 20]);
    other.memo[31] = 1;
    assert_ne!(verify_transfer(&other).transfer_hash, base.transfer_hash);
    let mut other = sample(1000, 100, [2u8; 20]);
    other.token_address = [3u8; 20];
    assert_ne!(verify_transfer(&other).transfer_hash, base.transfer_hash);
    let mut other = sample(1000, 100, [2u8; 20]);
    other.sender_secret = [9u8; 32];
    assert_ne!(verify_transfer(&other).sender_commitment, base.sender_commitment);
    assert_ne!(verify_transfer(&other).transfer_hash, base.transfer_hash);
}

#[test]
fn sender_commitment_preimage_layout() {
    let bytes = sender_commitment_preimage_bytes(&[1u8; 32], 1000);
    assert_eq!(bytes.len(), 48);
    assert_eq!(&bytes[0..32], &[1u8; 32]);
    assert_eq!(&bytes[32..48], &1000u128.to_le_bytes());
}

#[test]
fn transfer_preimage_layout() {
    let nonce = 0x0102_0304_0506_0708u64;
    let bytes =
        transfer_preimage_bytes(&[5u8; 32], 100, &[1u8; 20], &[2u8; 20], &[3u8; 32], nonce);
    assert_eq!(bytes.len(), 128);
    assert_eq!(&bytes[0..32], &[5u8; 32]);
    assert_eq!(&bytes[32..48], &100u128.to_le_bytes());
    assert_eq!(&bytes[48..68], &[1u8; 20]);
    assert_eq!(&bytes[68..88], &[2u8; 20]);
    assert_eq!(&bytes[88..120], &[3u8; 32]);
    assert_eq!(&bytes[120..128], &[0x08, 0x07, 0x06, 0x05, 0x04, 0x03, 0x02, 0x01]);
}

#[test]
fn transfer_output_keeps_digests_and_sets_flag() {
    let accepted = transfer_output([1u8; 32], [2u8; 32], true);
    assert_eq!(accepted.transfer_hash, [1u8; 32]);
    assert_eq!(accepted.sender_commitment, [2u8; 32]);
    assert_eq!(accepted.is_valid, 1);
    let rejected = transfer_output([1u8; 32], [2u8; 32], false);
    assert_eq!(rejected.transfer_hash, [1u8; 32]);
    assert_eq!(rejected.sender_commitment, [2u8; 32]);
    assert_eq!(rejected.is_valid, 0);
}
