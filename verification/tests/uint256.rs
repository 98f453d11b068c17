use ton_core::uint256::UInt256;

#[test]
fn zero_has_sixty_four_zero_digits() {
    assert_eq!(UInt256::default().to_hex_string(), "0".repeat(64));
}

#[test]
fn digits_are_lower_case_and_high_half_first() {
    let mut id = UInt256::default();
    id.bytes[0] = 0x0f;
    id.bytes[1] = 0xa0;
    id.bytes[31] = 0xfe;
    let text = id.to_hex_string();
    assert_eq!(text, format!("0fa0{}fe", "0".repeat(58)));
    assert_eq!(text.len(), 64);
}

#[test]
fn every_digit_is_used() {
    let mut id = UInt256::default();
    for (i, byte) in [0x01, 0x23, 0x45, 0x67, 0x89, 0xab, 0xcd, 0xef].iter().enumerate() {
        id.bytes[24 + i] = *byte;
    }
    assert_eq!(id.to_hex_string(), format!("{}0123456789abcdef", "0".repeat(48)));
}

#[test]
fn different_identifiers_have_different_texts() {
    let a = UInt256 { bytes: [0x10; 32] };
    let mut b = a;
    b.bytes[31] = 0x01;
    assert_ne!(a, b);
    assert_ne!(a.to_hex_string(), b.to_hex_string());
    b.bytes[31] = 0x10;
    assert_eq!(a, b);
    assert_eq!(a.to_hex_string(), b.to_hex_string());
}
