use websocket_source_v1::digest::sha256;
use websocket_source_v1::hex::{hex_decode_32, hex_encode};

const HELLO_SHA256: &str = "2cf24dba5fb0a30e26e83b2ac5b9e29e1b161e5c1fa7425e73043362938b9824";

#[test]
fn sha256_of_known_inputs() {
    assert_eq!(hex_encode(&sha256(b"hello")), HELLO_SHA256);
    assert_eq!(
        hex_encode(&sha256(b"")),
        "e3b0c44298fc1c149afbf4c8996fb92427ae41e4649b934ca495991b7852b855"
    );
}

#[test]
fn hex_encode_is_lowercase_two_digits_per_byte() {
    assert_eq!(hex_encode(&[1, 2, 3, 15, 16, 255]), "0102030f10ff");
    assert_eq!(hex_encode(&[]), "");
}

#[test]
fn hex_decode_32_accepts_either_case_and_prefix() {
    let digest = sha256(b"hello");
    assert_eq!(hex_decode_32(HELLO_SHA256.as_bytes()), Some(digest));
    assert_eq!(hex_decode_32(HELLO_SHA256.to_uppercase().as_bytes()), Some(digest));
    assert_eq!(hex_decode_32(format!("0x{HELLO_SHA256}").as_bytes()), Some(digest));
    assert_eq!(hex_decode_32(format!("0X{HELLO_SHA256}").as_bytes()), Some(digest));
}

#[test]
fn hex_decode_32_rejects_wrong_lengths_and_digits() {
    assert_eq!(hex_decode_32(&HELLO_SHA256.as_bytes()[..62]), None);
    assert_eq!(hex_decode_32(&HELLO_SHA256.as_bytes()[..63]), None);
    assert_eq!(hex_decode_32(format!("{HELLO_SHA256}00").as_bytes()), None);
    assert_eq!(hex_decode_32(format!("0x{}", &HELLO_SHA256[..62]).as_bytes()), None);
    let mut bad = HELLO_SHA256.to_string();
    bad.replace_range(10..11, "g");
    assert_eq!(hex_decode_32(bad.as_bytes()), None);
}

#[test]
fn hex_roundtrip_of_32_bytes() {
    let bytes: [u8; 32] = core::array::from_fn(|i| (i * 37 + 5) as u8);
    assert_eq!(hex_decode_32(hex_encode(&bytes).as_bytes()), Some(bytes));
}
