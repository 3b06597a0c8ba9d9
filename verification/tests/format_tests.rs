use tx_generator::bytes_to_hex;
use tx_generator::eth_personal_preimage;
use tx_generator::u64_to_decimal;

#[test]
fn hex_of_empty_is_empty() {
    assert_eq!(bytes_to_hex(&[]), Vec::<u8>::new());
}

#[test]
fn hex_is_lowercase_two_digits_per_byte() {
    assert_eq!(bytes_to_hex(&[0xbe, 0xef, 0x00, 0x1a]), b"beef001a".to_vec());
    assert_eq!(bytes_to_hex(&[0x00]), b"00".to_vec());
    assert_eq!(bytes_to_hex(&[0xff]), b"ff".to_vec());
}

#[test]
fn hex_length_is_twice_input_length() {
    let data = vec![0xabu8; 64];
    assert_eq!(bytes_to_hex(&data).len(), 128);
}

#[test]
fn decimal_of_zero() {
    assert_eq!(u64_to_decimal(0), b"0".to_vec());
}

#[test]
fn decimal_exact_values() {
    assert_eq!(u64_to_decimal(9), b"9".to_vec());
    assert_eq!(u64_to_decimal(10), b"10".to_vec());
    assert_eq!(u64_to_decimal(100), b"100".to_vec());
    assert_eq!(u64_to_decimal(32), b"32".to_vec());
    assert_eq!(u64_to_decimal(12345), b"12345".to_vec());
    assert_eq!(u64_to_decimal(u64::MAX), b"18446744073709551615".to_vec());
}

#[test]
fn preimage_of_empty_data_has_length_zero() {
    let got = eth_personal_preimage(b"");
    assert_eq!(got, b"\x19Ethereum Signed Message:\n0".to_vec());
}

#[test]
fn preimage_prefixes_length_and_data() {
    let got = eth_personal_preimage(b"abc");
    assert_eq!(got, b"\x19Ethereum Signed Message:\n3abc".to_vec());
}

#[test]
fn preimage_for_32_byte_data() {
    let data = [0x11u8; 32];
    let got = eth_personal_preimage(&data);
    let mut expected = b"\x19Ethereum Signed Message:\n32".to_vec();
    expected.extend_from_slice(&data);
    assert_eq!(got, expected);
}
