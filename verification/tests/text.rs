use gateway_client::felt::Felt;
use gateway_client::text::{to_decimal, to_hex};

#[test]
fn decimal_of_numbers() {
    assert_eq!(to_decimal(0), "0");
    assert_eq!(to_decimal(5), "5");
    assert_eq!(to_decimal(10), "10");
    assert_eq!(to_decimal(1_000_000), "1000000");
    assert_eq!(to_decimal(u64::MAX), "18446744073709551615");
}

#[test]
fn hex_of_bytes() {
    assert_eq!(to_hex(&[]), "0x0");
    assert_eq!(to_hex(&[0, 0, 0]), "0x0");
    assert_eq!(to_hex(&[0, 1]), "0x1");
    assert_eq!(to_hex(&[0x01, 0x23]), "0x123");
    assert_eq!(to_hex(&[0x10, 0x00]), "0x1000");
    assert_eq!(to_hex(&[0x0a, 0xbc, 0xde, 0xf0]), "0xabcdef0");
    assert_eq!(to_hex(&[0xff; 4]), "0xffffffff");
}

#[test]
fn hex_of_a_felt() {
    assert_eq!(Felt([0; 32]).to_hex_str(), "0x0");
    let mut bytes = [0u8; 32];
    bytes[31] = 0x23;
    bytes[30] = 0x01;
    assert_eq!(Felt::from_be_bytes(bytes).to_hex_str(), "0x123");
    let mut bytes = [0xabu8; 32];
    bytes[0] = 0x07;
    assert_eq!(
        Felt(bytes).to_hex_str(),
        format!("0x7{}", "ab".repeat(31))
    );
}
