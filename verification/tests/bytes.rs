use zk_program::bytes::{append_bytes, append_le, bytes_equal, is_all_zero};

#[test]
fn append_bytes_extends_the_buffer() {
    let mut buf = vec![1u8, 2];
    append_bytes(&mut buf, &[3, 4, 5]);
    assert_eq!(buf, vec![1, 2, 3, 4, 5]);
    append_bytes(&mut buf, &[]);
    assert_eq!(buf, vec![1, 2, 3, 4, 5]);
}

#[test]
fn append_le_writes_least_significant_byte_first() {
    let mut buf = vec![0xffu8];
    append_le(&mut buf, 0x0102_0304, 4);
    assert_eq!(buf, vec![0xff, 0x04, 0x03, 0x02, 0x01]);
}

#[test]
fn append_le_pads_with_zero_bytes() {
    let mut buf = Vec::new();
    append_le(&mut buf, 1000, 16);
    assert_eq!(buf, 1000u128.to_le_bytes().to_vec());
    assert_eq!(buf[0], 0xe8);
    assert_eq!(buf[1], 0x03);
}

#[test]
fn append_le_keeps_only_the_low_bytes() {
    let mut buf = Vec::new();
    append_le(&mut buf, 0x0102_0304, 2);
    assert_eq!(buf, vec![0x04, 0x03]);
    append_le(&mut buf, 7, 0);
    assert_eq!(buf, vec![0x04, 0x03]);
}

#[test]
fn append_le_agrees_with_the_standard_encodings() {
    for value in [0u128, 1, 255, 256, u64::MAX as u128, u128::MAX, 10_000_000_000_000_000_000] {
        let mut buf = Vec::new();
        append_le(&mut buf, value, 16);
        assert_eq!(buf, value.to_le_bytes().to_vec());
    }
    for value in [0u64, 1, 0x0102_0304_0506_0708, u64::MAX] {
        let mut buf = Vec::new();
        append_le(&mut buf, value as u128, 8);
        assert_eq!(buf, value.to_le_bytes().to_vec());
    }
}

#[test]
fn bytes_equal_compares_every_position() {
    let a = [7u8; 32];
    assert!(bytes_equal(&a, &[7u8; 32]));
    for position in 0..32 {
        let mut b = a;
        b[position] ^= 1;
        assert!(!bytes_equal(&a, &b));
    }
    assert!(bytes_equal::<0>(&[], &[]));
}

#[test]
fn is_all_zero_finds_any_nonzero_byte() {
    assert!(is_all_zero(&[0u8; 20]));
    for position in 0..20 {
        let mut a = [0u8; 20];
        a[position] = 0x80;
        assert!(!is_all_zero(&a));
    }
    assert!(!is_all_zero(&[1u8; 20]));
}
