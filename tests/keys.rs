use golem::keys::{parse_address, parse_secret_key};

const ADDR: &str = "0x00112233445566778899aabbccddeeff00112233";

fn addr_bytes() -> [u8; 20] {
    [
        0x00, 0x11, 0x22, 0x33, 0x44, 0x55, 0x66, 0x77, 0x88, 0x99, 0xaa, 0xbb, 0xcc, 0xdd, 0xee,
        0xff, 0x00, 0x11, 0x22, 0x33,
    ]
}

#[test]
fn address_with_prefix() {
    let a = parse_address(ADDR).unwrap();
    assert_eq!(a.bytes, addr_bytes());
}

#[test]
fn address_without_prefix_and_upper_case() {
    let a = parse_address("00112233445566778899AABBCCDDEEFF00112233").unwrap();
    assert_eq!(a.bytes, addr_bytes());
}

#[test]
fn address_with_white_space_between_digits() {
    let a = parse_address("0x0011 2233445566778899aabbccddeeff00112233\n").unwrap();
    assert_eq!(a.bytes, addr_bytes());
}

#[test]
fn address_of_wrong_length() {
    assert_eq!(parse_address("0x00112233445566778899aabbccddeeff0011223"), None);
    assert_eq!(parse_address("0x00112233445566778899aabbccddeeff001122334"), None);
    assert_eq!(parse_address("0x00112233445566778899aabbccddeeff0011223344"), None);
    assert_eq!(parse_address(""), None);
    assert_eq!(parse_address("0x"), None);
}

#[test]
fn address_with_bad_character() {
    assert_eq!(parse_address("0x00112233445566778899aabbccddeeff0011223g"), None);
    assert_eq!(parse_address("0X00112233445566778899aabbccddeeff00112233"), None);
}

#[test]
fn secret_key_reads_its_bytes() {
    let k = parse_secret_key("0000000000000000000000000000000000000000000000000000000000000001")
        .unwrap();
    let mut expected = [0u8; 32];
    expected[31] = 1;
    assert_eq!(k.bytes, expected);
    let k = parse_secret_key("AB00000000000000000000000000000000000000000000000000000000000010")
        .unwrap();
    assert_eq!(k.bytes[0], 0xab);
    assert_eq!(k.bytes[31], 0x10);
}

#[test]
fn secret_key_out_of_range() {
    let zero = "0000000000000000000000000000000000000000000000000000000000000000";
    let order = "FFFFFFFFFFFFFFFFFFFFFFFFFFFFFFFEBAAEDCE6AF48A03BBFD25E8CD0364141";
    let below = "FFFFFFFFFFFFFFFFFFFFFFFFFFFFFFFEBAAEDCE6AF48A03BBFD25E8CD0364140";
    assert_eq!(parse_secret_key(zero), None);
    assert_eq!(parse_secret_key(order), None);
    assert!(parse_secret_key(below).is_some());
}

#[test]
fn secret_key_of_wrong_shape() {
    assert_eq!(
        parse_secret_key("000000000000000000000000000000000000000000000000000000000000001"),
        None
    );
    assert_eq!(
        parse_secret_key("0x0000000000000000000000000000000000000000000000000000000000000001"),
        None
    );
    assert_eq!(
        parse_secret_key("000000000000000000000000000000000000000000000000000000000000000z"),
        None
    );
    assert_eq!(parse_secret_key(""), None);
}
