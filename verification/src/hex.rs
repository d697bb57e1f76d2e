//! Hexadecimal text of byte strings, through the `const-hex` crate.
use vstd::prelude::*;

verus! {

/// The lowercase hex digit of a value below 16.
pub open spec fn hex_lower_char(v: nat) -> char {
    if v < 10 {
        (v + 48) as char
    } else {
        (v + 87) as char
    }
}

/// Lowercase hex text of `data`: two digits per byte, high nibble first.
pub open spec fn hex_lower(data: Seq<u8>) -> Seq<char> {
    Seq::new(
        2 * data.len(),
        |i: int|
            if i % 2 == 0 {
                hex_lower_char((data[i / 2] / 16) as nat)
            } else {
                hex_lower_char((data[i / 2] % 16) as nat)
            },
    )
}

/// The value of a hex digit byte in either case, or `None` for any other byte.
pub open spec fn hex_digit_value(b: u8) -> Option<nat> {
    if 48 <= b <= 57 {
        Some((b - 48) as nat)
    } else if 97 <= b <= 102 {
        Some((b - 87) as nat)
    } else if 65 <= b <= 70 {
        Some((b - 55) as nat)
    } else {
        None
    }
}

/// The input without one leading `0x` or `0X`.
pub open spec fn hex_body(s: Seq<u8>) -> Seq<u8> {
    if s.len() >= 2 && s[0] == 48u8 && (s[1] == 120u8 || s[1] == 88u8) {
        s.skip(2)
    } else {
        s
    }
}

/// Decoding hex text into exactly `n` bytes: the input has even length, its
/// body (after an optional `0x` or `0X`) is `2 * n` hex digits of either case,
/// and each pair of digits gives one byte, high nibble first.
pub open spec fn hex_decode(s: Seq<u8>, n: nat) -> Option<Seq<u8>> {
    let b = hex_body(s);
    if s.len() % 2 == 0 && b.len() == 2 * n && forall|i: int|
        0 <= i < b.len() ==> (#[trigger] hex_digit_value(b[i])) is Some {
        Some(
            Seq::new(
                n,
                |i: int|
                    (16 * hex_digit_value(b[2 * i]).unwrap() + hex_digit_value(
                        b[2 * i + 1],
                    ).unwrap()) as u8,
            ),
        )
    } else {
        None
    }
}

/// Lowercase hex text of the bytes of `data`.
///
/// Calls `const_hex::encode`, whose documentation promises lowercase digits,
/// two per byte; the contract states exactly that text.
#[verifier::external_body]
pub fn hex_encode(data: &[u8]) -> (res: String)
    ensures
        res@ == hex_lower(data@),
{
    const_hex::encode(data)
}

/// Decodes hex text into 32 bytes.
///
/// Calls `const_hex::decode_to_slice` with a 32-byte output. Its source checks
/// that the input length is even, strips one `0x`/`0X` prefix, requires the
/// rest to be twice the output length, and decodes digits of either case,
/// high nibble first; the contract states that, and `None` for every other input.
#[verifier::external_body]
pub fn hex_decode_32(input: &[u8]) -> (res: Option<[u8; 32]>)
    ensures
        res is Some <==> hex_decode(input@, 32) is Some,
        res matches Some(bytes) ==> bytes@ == hex_decode(input@, 32).unwrap(),
{
    let mut bytes: [u8; 32] = [0u8; 32];
    match const_hex::decode_to_slice(input, &mut bytes) {
        Ok(()) => Some(bytes),
        Err(_) => None,
    }
}

/// Lowercase hex text is ASCII.
pub proof fn lemma_hex_lower_ascii(data: Seq<u8>)
    ensures
        forall|i: int|
            0 <= i < hex_lower(data).len() ==> ('0' <= #[trigger] hex_lower(data)[i] <= '9' || 'a'
                <= hex_lower(data)[i] <= 'f'),
{
    assert forall|i: int| 0 <= i < hex_lower(data).len() implies ('0' <= #[trigger] hex_lower(
        data,
    )[i] <= '9' || 'a' <= hex_lower(data)[i] <= 'f') by {
        let v: nat = if i % 2 == 0 {
            (data[i / 2] / 16) as nat
        } else {
            (data[i / 2] % 16) as nat
        };
        assert(v < 16);
        assert(hex_lower(data)[i] == hex_lower_char(v));
    }
}

/// Decoding the lowercase hex text of 32 bytes gives those bytes back.
pub proof fn lemma_hex_roundtrip(data: Seq<u8>, text: Seq<u8>)
    requires
        data.len() == 32,
        text.len() == hex_lower(data).len(),
        forall|i: int| 0 <= i < text.len() ==> #[trigger] text[i] == hex_lower(data)[i] as u8,
    ensures
        hex_decode(text, 32) == Some(data),
{
    let h = hex_lower(data);
    assert forall|i: int| 0 <= i < text.len() implies hex_digit_value(#[trigger] text[i])
        == Some(if i % 2 == 0 {
        (data[i / 2] / 16) as nat
    } else {
        (data[i / 2] % 16) as nat
    }) by {
        let v: nat = if i % 2 == 0 {
            (data[i / 2] / 16) as nat
        } else {
            (data[i / 2] % 16) as nat
        };
        assert(v < 16);
        assert(h[i] == hex_lower_char(v));
    }
    assert(hex_digit_value(text[1]) is Some);
    assert(text[1] != 120u8 && text[1] != 88u8);
    assert(hex_body(text) == text);
    let out = hex_decode(text, 32).unwrap();
    assert forall|i: int| 0 <= i < 32 implies out[i] == data[i] by {
        assert(hex_digit_value(text[2 * i]) == Some((data[i] / 16) as nat));
        assert(hex_digit_value(text[2 * i + 1]) == Some((data[i] % 16) as nat));
        assert(16 * (data[i] / 16) + data[i] % 16 == data[i]);
    }
    assert(out =~= data);
}

} // verus!
