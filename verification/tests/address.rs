use blockchain_facade::domain::address::Address;
use blockchain_facade::error::BlockchainServiceError;

fn rejected(raw: &str) -> (String, Option<String>) {
    match Address::validate(raw) {
        Err(BlockchainServiceError::InvalidAddress { raw, diagnostic }) => (raw, diagnostic),
        other => panic!("expected an invalid address, got {:?}", other),
    }
}

#[test]
fn canonical_address_gives_its_bytes() {
    let address = Address::validate("0x0000000000000000000000000000000000001111").unwrap();
    let mut expected = [0u8; 20];
    expected[18] = 0x11;
    expected[19] = 0x11;
    assert_eq!(address.bytes, expected);
}

#[test]
fn digits_of_either_case_spell_the_same_bytes() {
    let lower = Address::validate("0xab5801a7d398351b8be11c439e05c5b3259aec9b").unwrap();
    let mixed = Address::validate("0xAb5801a7D398351b8bE11C439e05C5B3259aeC9B").unwrap();
    let upper = Address::validate("0xAB5801A7D398351B8BE11C439E05C5B3259AEC9B").unwrap();
    assert_eq!(lower, mixed);
    assert_eq!(lower, upper);
    assert_eq!(
        lower.bytes,
        [
            0xab, 0x58, 0x01, 0xa7, 0xd3, 0x98, 0x35, 0x1b, 0x8b, 0xe1, 0x1c, 0x43, 0x9e, 0x05,
            0xc5, 0xb3, 0x25, 0x9a, 0xec, 0x9b
        ]
    );
}

#[test]
fn high_digit_comes_first_in_each_byte() {
    let address = Address::validate("0x1f00000000000000000000000000000000000000").unwrap();
    assert_eq!(address.bytes[0], 0x1f);
    assert_eq!(address.bytes[1], 0x00);
}

#[test]
fn empty_text_is_rejected_with_the_parsers_diagnostic() {
    let (raw, diagnostic) = rejected("");
    assert_eq!(raw, "");
    assert_eq!(diagnostic, Some("Invalid input length".to_string()));
}

#[test]
fn text_that_is_no_hexadecimal_is_rejected() {
    let (raw, diagnostic) = rejected("not-an-address");
    assert_eq!(raw, "not-an-address");
    assert_eq!(diagnostic, Some("Invalid character 'n' at position 0".to_string()));
}

#[test]
fn a_wrong_digit_is_named_with_its_place_behind_the_prefix() {
    let (raw, diagnostic) = rejected("0x00000000000000000000000000000000000011zz");
    assert_eq!(raw, "0x00000000000000000000000000000000000011zz");
    assert_eq!(diagnostic, Some("Invalid character 'z' at position 38".to_string()));
}

#[test]
fn too_short_and_too_long_are_rejected() {
    let (_, short) = rejected("0x000000000000000000000000000000000000111");
    assert_eq!(short, Some("Invalid input length".to_string()));
    let (_, long) = rejected("0x000000000000000000000000000000000000111122");
    assert_eq!(long, Some("Invalid input length".to_string()));
}

#[test]
fn the_prefix_is_required() {
    let (raw, diagnostic) = rejected("0000000000000000000000000000000000001111");
    assert_eq!(raw, "0000000000000000000000000000000000001111");
    assert_eq!(diagnostic, None);
}

#[test]
fn the_prefix_is_in_lower_case() {
    let (_, diagnostic) = rejected("0X0000000000000000000000000000000000001111");
    assert_eq!(diagnostic, Some("Invalid character 'X' at position 1".to_string()));
}

#[test]
fn white_space_inside_is_rejected() {
    let (raw, diagnostic) = rejected("0x00000000000000000000 00000000000000001111");
    assert_eq!(raw, "0x00000000000000000000 00000000000000001111");
    assert_eq!(diagnostic, None);
    let (_, diagnostic) = rejected("0x0000000000000000000000000000000000001111\n");
    assert_eq!(diagnostic, None);
}

#[test]
fn characters_beyond_ascii_are_rejected() {
    let (raw, diagnostic) = rejected("0x00000000000000000000000000000000000011é1");
    assert_eq!(raw, "0x00000000000000000000000000000000000011é1");
    assert_eq!(diagnostic, Some("Invalid character 'é' at position 38".to_string()));
}
