use lora_ratchet::hex::hexstring;

#[test]
fn hexstring_of_nothing_is_the_prefix() {
    assert_eq!(hexstring(&[]), "0x");
}

#[test]
fn hexstring_of_one_byte() {
    assert_eq!(hexstring(&[0x0A]), "0x0A");
    assert_eq!(hexstring(&[0x00]), "0x00");
    assert_eq!(hexstring(&[0xFF]), "0xFF");
}

#[test]
fn hexstring_parts_bytes_with_comma_and_prefix() {
    assert_eq!(hexstring(&[0xDE, 0xAD, 0xBE, 0xEF]), "0xDE, 0xAD, 0xBE, 0xEF");
    assert_eq!(hexstring(&[1, 35, 69, 103, 137, 171, 205, 239]), "0x01, 0x23, 0x45, 0x67, 0x89, 0xAB, 0xCD, 0xEF");
}

#[test]
fn hexstring_agrees_with_the_standard_formatter() {
    let bytes: Vec<u8> = (0..=255u8).collect();
    let expected = String::from("0x")
        + &bytes.iter().map(|n| format!("{:02X}", n)).collect::<Vec<String>>().join(", 0x");
    assert_eq!(hexstring(&bytes), expected);
}
