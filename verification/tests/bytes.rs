use private_perps::bytes::{bytes32_eq, nonce_from_le_bytes, nonce_to_le_bytes};

#[test]
fn nonce_bytes_match_std_little_endian() {
    for x in [0u128, 1, 255, 256, 0x1234_5678_9ABC_DEF0, u128::MAX, u128::MAX - 1, 1u128 << 127] {
        assert_eq!(nonce_to_le_bytes(x), x.to_le_bytes());
        assert_eq!(u128::from_le_bytes(nonce_to_le_bytes(x)), x);
    }
}

#[test]
fn bytes32_eq_compares_every_byte() {
    let a = [4u8; 32];
    let mut b = a;
    assert!(bytes32_eq(&a, &b));
    b[31] = 5;
    assert!(!bytes32_eq(&a, &b));
    b = a;
    b[0] = 0;
    assert!(!bytes32_eq(&a, &b));
}

#[test]
fn nonce_bytes_read_back() {
    for x in [0u128, 1, 256, 0x1234_5678_9ABC_DEF0_0FED_CBA9_8765_4321, u128::MAX] {
        assert_eq!(nonce_from_le_bytes(x.to_le_bytes()), x);
        assert_eq!(nonce_from_le_bytes(nonce_to_le_bytes(x)), x);
    }
}
