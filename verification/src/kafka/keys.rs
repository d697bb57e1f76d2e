//! Kafka record keys.
//!
//! The WebSocket relay keys each record by the hex SHA-256 of its payload. The
//! gRPC relay keys each record by `<slot>_<hex SHA-256 of payload>`, and the
//! dedup stage reads the slot and the digest back out of such keys.
use vstd::prelude::*;
use vstd::string::*;
use vstd::utf8::{encode_utf8, is_ascii_chars};
use crate::decimal::{
    ascii_bytes, decimal_chars, format_u64, lemma_decimal_chars_digits, lemma_parse_decimal,
    parse_u64, parse_unsigned,
};
use crate::digest::{sha256, sha256_digest};
use crate::hex::{
    hex_decode, hex_decode_32, hex_encode, hex_lower, lemma_hex_lower_ascii, lemma_hex_roundtrip,
};

verus! {

/// The key text of a record that the gRPC relay produces for `slot` and a
/// payload with SHA-256 digest `digest`.
pub open spec fn grpc_key_chars(slot: nat, digest: Seq<u8>) -> Seq<char> {
    decimal_chars(slot) + seq!['_'] + hex_lower(digest)
}

/// The position of the first `b` in `s` at or after `from`.
pub open spec fn first_index_from(s: Seq<u8>, b: u8, from: int) -> Option<int>
    decreases s.len() - from,
{
    if from < 0 || from >= s.len() {
        None
    } else if s[from] == b {
        Some(from)
    } else {
        first_index_from(s, b, from + 1)
    }
}

/// What the dedup stage reads from a record key: the key splits at its first
/// `_`; the part before is a `u64` slot in decimal and the part after is the
/// hex text of a 32-byte digest.
pub open spec fn dedup_key_parts(key: Seq<u8>) -> Option<(nat, Seq<u8>)> {
    match first_index_from(key, 95u8, 0) {
        None => None,
        Some(i) => match (parse_unsigned(key.take(i), u64::MAX as nat), hex_decode(key.skip(i + 1), 32)) {
            (Some(slot), Some(hash)) => Some((slot, hash)),
            _ => None,
        },
    }
}

/// The slot and payload digest that a dedup-stage record key carries.
pub struct DedupKey {
    pub slot: u64,
    pub hash: [u8; 32],
}

/// Record key of the WebSocket relay: the lowercase hex SHA-256 of the payload.
pub fn ws_record_key(payload: &[u8]) -> (key: String)
    ensures
        key@ == hex_lower(sha256_digest(payload@)),
{
    let digest = sha256(payload);
    hex_encode(digest.as_slice())
}

/// Record key of the gRPC relay: `<slot>_<lowercase hex SHA-256 of payload>`.
pub fn grpc_record_key(slot: u64, payload: &[u8]) -> (key: String)
    ensures
        key@ == grpc_key_chars(slot as nat, sha256_digest(payload@)),
{
    let digest = sha256(payload);
    let hash = hex_encode(digest.as_slice());
    let mut key = format_u64(slot);
    key.push('_');
    key.append(hash.as_str());
    assert(key@ =~= grpc_key_chars(slot as nat, sha256_digest(payload@)));
    key
}

/// Reads the slot and digest out of the bytes of a dedup-stage record key; `None`
/// where the dedup stage skips the record.
pub fn parse_dedup_key(key: &[u8]) -> (res: Option<DedupKey>)
    ensures
        match dedup_key_parts(key@) {
            Some((slot, hash)) => res matches Some(k) && k.slot == slot && k.hash@ == hash,
            None => res is None,
        },
{
    let mut i: usize = 0;
    while i < key.len()
        invariant
            i <= key.len(),
            first_index_from(key@, 95u8, 0) == first_index_from(key@, 95u8, i as int),
        ensures
            i <= key.len(),
            first_index_from(key@, 95u8, 0) == first_index_from(key@, 95u8, i as int),
            i < key.len() ==> key@[i as int] == 95u8,
        decreases key.len() - i,
    {
        if key[i] == 95u8 {
            break;
        }
        i = i + 1;
    }
    if i == key.len() {
        return None;
    }
    assert(first_index_from(key@, 95u8, 0) == Some(i as int));
    let (slot_text, rest) = key.split_at(i);
    let (_, hash_text) = rest.split_at(1);
    assert(slot_text@ =~= key@.take(i as int));
    assert(hash_text@ =~= key@.skip(i + 1));
    let slot = parse_u64(slot_text);
    let hash = hex_decode_32(hash_text);
    match (slot, hash) {
        (Some(slot), Some(hash)) => Some(DedupKey { slot, hash }),
        _ => None,
    }
}

/// Every key that the gRPC relay writes reads back, in the dedup stage, as the
/// slot and the payload digest that it was made from.
pub proof fn lemma_grpc_key_roundtrip(slot: u64, digest: Seq<u8>)
    requires
        digest.len() == 32,
    ensures
        dedup_key_parts(encode_utf8(grpc_key_chars(slot as nat, digest))) == Some((slot as nat, digest)),
{
    let d = decimal_chars(slot as nat);
    let h = hex_lower(digest);
    let k = grpc_key_chars(slot as nat, digest);
    lemma_decimal_chars_digits(slot as nat);
    lemma_hex_lower_ascii(digest);
    assert(is_ascii_chars(k)) by {
        assert forall|i: int| 0 <= i < k.len() implies '\0' <= #[trigger] k[i] <= '\u{7f}' by {
            if i < d.len() {
                assert(k[i] == d[i]);
            } else if i > d.len() {
                assert(k[i] == h[i - d.len() - 1]);
            }
        }
    }
    vstd::utf8::is_ascii_chars_encode_utf8(k);
    let bytes = encode_utf8(k);
    let n = d.len() as int;
    assert(bytes[n] == 95u8) by {
        assert(k[n] == '_');
    }
    assert forall|j: int| 0 <= j < n implies bytes[j] != 95u8 && bytes[j] == #[trigger] ascii_bytes(d)[j] by {
        assert(k[j] == d[j]);
    }
    assert forall|j: int| 0 <= j <= n implies first_index_from(bytes, 95u8, j) == Some(n) by {
        lemma_first_index_from(bytes, 95u8, j, n);
    }
    assert(bytes.take(n) =~= ascii_bytes(d));
    lemma_parse_decimal(slot as nat, u64::MAX as nat);
    assert forall|j: int| 0 <= j < bytes.skip(n + 1).len() implies #[trigger] bytes.skip(n + 1)[j]
        == h[j] as u8 by {
        assert(k[n + 1 + j] == h[j]);
    }
    lemma_hex_roundtrip(digest, bytes.skip(n + 1));
}

proof fn lemma_first_index_from(s: Seq<u8>, b: u8, j: int, n: int)
    requires
        0 <= j <= n < s.len(),
        s[n] == b,
        forall|k: int| 0 <= k < n ==> s[k] != b,
    ensures
        first_index_from(s, b, j) == Some(n),
    decreases n - j,
{
    if j < n {
        lemma_first_index_from(s, b, j + 1, n);
    }
}

} // verus!
