use websocket_source_v1::digest::sha256;
use websocket_source_v1::kafka::keys::{grpc_record_key, parse_dedup_key, ws_record_key};

const HELLO_SHA256: &str = "2cf24dba5fb0a30e26e83b2ac5b9e29e1b161e5c1fa7425e73043362938b9824";

#[test]
fn ws_key_is_hex_digest_of_payload() {
    assert_eq!(ws_record_key(b"hello"), HELLO_SHA256);
}

#[test]
fn grpc_key_is_slot_underscore_digest() {
    assert_eq!(grpc_record_key(42, b"hello"), format!("42_{HELLO_SHA256}"));
    assert_eq!(grpc_record_key(0, b"hello"), format!("0_{HELLO_SHA256}"));
    assert_eq!(grpc_record_key(u64::MAX, b"hello"), format!("18446744073709551615_{HELLO_SHA256}"));
}

#[test]
fn dedup_reads_back_grpc_keys() {
    for (slot, payload) in [(0u64, &b"a"[..]), (42, b"hello"), (u64::MAX, b""), (280_123_456, b"\x00\xff")] {
        let key = grpc_record_key(slot, payload);
        let parsed = parse_dedup_key(key.as_bytes()).expect("key of the gRPC relay");
        assert_eq!(parsed.slot, slot);
        assert_eq!(parsed.hash, sha256(payload));
    }
}

#[test]
fn dedup_key_accepts_plus_prefix_upper_case() {
    let k = parse_dedup_key(format!("+5_0x{}", HELLO_SHA256.to_uppercase()).as_bytes()).unwrap();
    assert_eq!(k.slot, 5);
    assert_eq!(k.hash, sha256(b"hello"));
}

#[test]
fn dedup_key_rejects_malformed_keys() {
    assert!(parse_dedup_key(HELLO_SHA256.as_bytes()).is_none());
    assert!(parse_dedup_key(format!("x_{HELLO_SHA256}").as_bytes()).is_none());
    assert!(parse_dedup_key(format!("_{HELLO_SHA256}").as_bytes()).is_none());
    assert!(parse_dedup_key(format!("18446744073709551616_{HELLO_SHA256}").as_bytes()).is_none());
    assert!(parse_dedup_key(format!("5_{}", &HELLO_SHA256[..62]).as_bytes()).is_none());
    assert!(parse_dedup_key(format!("5_{HELLO_SHA256}_").as_bytes()).is_none());
    assert!(parse_dedup_key(b"").is_none());
}

#[test]
fn dedup_key_splits_at_first_underscore() {
    assert!(parse_dedup_key(format!("5__{HELLO_SHA256}").as_bytes()).is_none());
}
