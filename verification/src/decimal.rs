//! Decimal integers as text: the grammar that `str::parse` accepts for
//! unsigned integers, and the text that `Display` writes for them.
use vstd::prelude::*;

verus! {

/// `b` is an ASCII decimal digit.
pub open spec fn is_digit_byte(b: u8) -> bool {
    48 <= b <= 57
}

/// Every byte of `s` is an ASCII decimal digit.
pub open spec fn all_digit_bytes(s: Seq<u8>) -> bool {
    forall|i: int| 0 <= i < s.len() ==> is_digit_byte(#[trigger] s[i])
}

/// The value of a string of decimal digits, most significant first.
pub open spec fn digits_value(s: Seq<u8>) -> nat
    decreases s.len(),
{
    if s.len() == 0 {
        0
    } else {
        digits_value(s.drop_last()) * 10 + (s.last() - 48) as nat
    }
}

/// The digits of an unsigned number: everything after one optional leading `+`.
pub open spec fn unsigned_digits(s: Seq<u8>) -> Seq<u8> {
    if s.len() > 0 && s[0] == 43u8 {
        s.drop_first()
    } else {
        s
    }
}

/// What `str::parse` gives for an unsigned integer type whose largest value is
/// `max`: an optional `+`, then one or more digits, with a value of at most `max`.
pub open spec fn parse_unsigned(s: Seq<u8>, max: nat) -> Option<nat> {
    let d = unsigned_digits(s);
    if d.len() > 0 && all_digit_bytes(d) && digits_value(d) <= max {
        Some(digits_value(d))
    } else {
        None
    }
}

/// The ASCII character of the decimal digit `d`.
pub open spec fn digit_char(d: nat) -> char {
    (d + 48) as char
}

/// The decimal text of `n` without leading zeros, as `Display` writes it.
pub open spec fn decimal_chars(n: nat) -> Seq<char>
    decreases n,
{
    if n < 10 {
        seq![digit_char(n)]
    } else {
        decimal_chars(n / 10).push(digit_char(n % 10))
    }
}

/// The bytes of an ASCII text.
pub open spec fn ascii_bytes(s: Seq<char>) -> Seq<u8> {
    Seq::new(s.len(), |i: int| s[i] as u8)
}

proof fn lemma_digits_value_prefix_le(s: Seq<u8>, i: int, j: int)
    requires
        0 <= i <= j <= s.len(),
        all_digit_bytes(s),
    ensures
        digits_value(s.take(i)) <= digits_value(s.take(j)),
    decreases j - i,
{
    if i < j {
        lemma_digits_value_prefix_le(s, i, j - 1);
        assert(s.take(j).drop_last() =~= s.take(j - 1));
        assert(is_digit_byte(s[j - 1]));
    }
}

/// Parses the bytes of a decimal text into a `u64` as `str::parse::<u64>` does.
pub fn parse_u64(s: &[u8]) -> (res: Option<u64>)
    ensures
        match parse_unsigned(s@, u64::MAX as nat) {
            Some(v) => res == Some(v as u64),
            None => res is None,
        },
{
    let mut start: usize = 0;
    if s.len() > 0 && s[0] == 43u8 {
        start = 1;
    }
    let ghost d = unsigned_digits(s@);
    assert(d =~= s@.skip(start as int));
    if start >= s.len() {
        return None;
    }
    let mut acc: u64 = 0;
    let mut i: usize = start;
    while i < s.len()
        invariant
            start <= i <= s.len(),
            start < s.len(),
            d =~= s@.skip(start as int),
            d == unsigned_digits(s@),
            forall|k: int| start <= k < i ==> is_digit_byte(#[trigger] s@[k]),
            acc as nat == digits_value(d.take(i - start)),
        decreases s.len() - i,
    {
        let b = s[i];
        if b < 48u8 || b > 57u8 {
            assert(d[i - start] == s@[i as int]);
            assert(!is_digit_byte(d[i - start]));
            assert(!all_digit_bytes(d));
            return None;
        }
        assert(d.take(i + 1 - start).drop_last() =~= d.take(i - start));
        assert(d.take(i + 1 - start).last() == b);
        let digit: u64 = (b - 48u8) as u64;
        assert(digits_value(d.take(i + 1 - start)) == acc * 10 + digit);
        if acc > (u64::MAX - digit) / 10 {
            proof {
                assert(acc * 10 + digit > u64::MAX) by (nonlinear_arith)
                    requires
                        acc > (u64::MAX - digit) / 10,
                        digit <= 9,
                ;
                assert forall|k: int| 0 <= k < i + 1 - start implies is_digit_byte(
                    #[trigger] d.take(i + 1 - start)[k],
                ) by {
                    assert(d.take(i + 1 - start)[k] == s@[start + k]);
                }
                if all_digit_bytes(d) {
                    lemma_digits_value_prefix_le(d, i + 1 - start, d.len() as int);
                    assert(d.take(d.len() as int) =~= d);
                    assert(digits_value(d) > u64::MAX);
                }
            }
            return None;
        }
        assert(acc * 10 + digit <= u64::MAX) by (nonlinear_arith)
            requires
                acc <= (u64::MAX - digit) / 10,
                digit <= 9,
        ;
        acc = acc * 10 + digit;
        i = i + 1;
    }
    assert(d.take(i - start) =~= d);
    Some(acc)
}

/// Parses the bytes of a decimal text into a `usize` as `str::parse::<usize>` does.
pub fn parse_usize(s: &[u8]) -> (res: Option<usize>)
    ensures
        match parse_unsigned(s@, usize::MAX as nat) {
            Some(v) => res == Some(v as usize),
            None => res is None,
        },
{
    match parse_u64(s) {
        Some(v) => {
            if v as u128 <= usize::MAX as u128 {
                Some(v as usize)
            } else {
                None
            }
        },
        None => None,
    }
}

/// `String::push` appends one character to the end of the string.
pub assume_specification[ String::push ](string: &mut String, ch: char)
    ensures
        final(string)@ == old(string)@.push(ch),
;

/// Appends the decimal text of `n` to `out`, as `write!(out, "{n}")` does.
pub fn push_decimal(out: &mut String, n: u64)
    ensures
        final(out)@ == old(out)@ + decimal_chars(n as nat),
    decreases n,
{
    if n >= 10 {
        push_decimal(out, n / 10);
    }
    let d: u8 = (n % 10) as u8;
    out.push((d + 48u8) as char);
    proof {
        if n < 10 {
            assert(decimal_chars(n as nat) =~= seq![digit_char(n as nat)]);
        }
    }
}

/// The decimal text of `n`, as `n.to_string()` gives it.
pub fn format_u64(n: u64) -> (res: String)
    ensures
        res@ == decimal_chars(n as nat),
{
    let mut out = String::new();
    push_decimal(&mut out, n);
    assert(out@ =~= decimal_chars(n as nat));
    out
}

/// The decimal text of a number is ASCII, starts with a digit, and reads back
/// as the number.
pub proof fn lemma_decimal_chars_digits(n: nat)
    ensures
        decimal_chars(n).len() > 0,
        all_digit_bytes(ascii_bytes(decimal_chars(n))),
        digits_value(ascii_bytes(decimal_chars(n))) == n,
        forall|i: int| 0 <= i < decimal_chars(n).len() ==> '0' <= #[trigger] decimal_chars(n)[i] <= '9',
    decreases n,
{
    let s = ascii_bytes(decimal_chars(n));
    if n < 10 {
        assert(s =~= seq![(n + 48) as u8]);
        assert(s.drop_last() =~= Seq::<u8>::empty());
        assert(s.last() == (n + 48) as u8);
        assert(((n + 48) as u8) as int == n + 48);
        assert(digits_value(s) == digits_value(s.drop_last()) * 10 + (s.last() - 48) as nat);
    } else {
        lemma_decimal_chars_digits(n / 10);
        let p = ascii_bytes(decimal_chars(n / 10));
        assert(s.drop_last() =~= p);
        assert(s.last() == (n % 10 + 48) as u8);
        assert(((n % 10 + 48) as u8) as int == n % 10 + 48);
        assert(digits_value(s) == digits_value(s.drop_last()) * 10 + (s.last() - 48) as nat);
        assert(n == (n / 10) * 10 + n % 10);
    }
}

/// The decimal text of a number in range parses back to that number.
pub proof fn lemma_parse_decimal(n: nat, max: nat)
    requires
        n <= max,
    ensures
        parse_unsigned(ascii_bytes(decimal_chars(n)), max) == Some(n),
{
    lemma_decimal_chars_digits(n);
    let s = ascii_bytes(decimal_chars(n));
    assert(is_digit_byte(s[0]));
    assert(unsigned_digits(s) == s);
}

} // verus!
