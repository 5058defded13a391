use beam_shared::serial::{asn_str_to_vault_str, format_serial_hex};
use openssl::asn1::Asn1Integer;
use openssl::bn::BigNum;

#[test]
fn hex_str() {
    let bn = BigNum::from_hex_str("440E0D94F36966391117BC9F867D84F0C48CFCB7").unwrap();
    let input = Asn1Integer::from_bn(&bn).unwrap();
    let expected = "44:0e:0d:94:f3:69:66:39:11:17:bc:9f:86:7d:84:f0:c4:8c:fc:b7";
    assert_eq!(expected, asn_str_to_vault_str(&input).unwrap());
}

#[test]
fn format_hex_digits_in_lowercase_pairs() {
    assert_eq!(
        format_serial_hex("440E0D94F36966391117BC9F867D84F0C48CFCB7"),
        "44:0e:0d:94:f3:69:66:39:11:17:bc:9f:86:7d:84:f0:c4:8c:fc:b7"
    );
}

#[test]
fn format_short_and_empty_serials() {
    assert_eq!(format_serial_hex(""), "");
    assert_eq!(format_serial_hex("A"), "a");
    assert_eq!(format_serial_hex("AB"), "ab");
    assert_eq!(format_serial_hex("ABC"), "ab:c");
    assert_eq!(format_serial_hex("0aFf"), "0a:ff");
}

#[test]
fn serial_of_small_number() {
    let bn = BigNum::from_u32(0x1234).unwrap();
    let input = Asn1Integer::from_bn(&bn).unwrap();
    assert_eq!(asn_str_to_vault_str(&input).unwrap(), "12:34");
}
