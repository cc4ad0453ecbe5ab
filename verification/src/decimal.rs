//! Decimal text of integers, as written by `to_string` and read by `str::parse`.

use vstd::prelude::*;
use vstd::utf8::*;

verus! {

/// The character of a decimal digit `d` (0 to 9).
pub open spec fn digit_char(d: nat) -> char {
    (d + 48) as char
}

/// Decimal text of a natural number, most significant digit first, no leading zeros.
pub open spec fn decimal_chars(n: nat) -> Seq<char>
    decreases n,
{
    if n < 10 {
        seq![digit_char(n)]
    } else {
        decimal_chars(n / 10).push(digit_char(n % 10))
    }
}

/// Decimal text of a signed integer: a `-` before the digits of its magnitude when negative.
pub open spec fn signed_decimal_chars(x: int) -> Seq<char> {
    if x < 0 {
        seq!['-'] + decimal_chars((-x) as nat)
    } else {
        decimal_chars(x as nat)
    }
}

/// An ASCII decimal digit byte.
pub open spec fn is_digit_byte(b: u8) -> bool {
    48 <= b <= 57
}

pub open spec fn all_digit_bytes(s: Seq<u8>) -> bool {
    forall|i: int| 0 <= i < s.len() ==> is_digit_byte(#[trigger] s[i])
}

/// The value of a sequence of digit bytes, read most significant first.
pub open spec fn digits_value(s: Seq<u8>) -> int
    decreases s.len(),
{
    if s.len() == 0 {
        0
    } else {
        digits_value(s.drop_last()) * 10 + (s.last() - 48)
    }
}

/// The bytes after an optional leading `+`.
pub open spec fn unsigned_body(s: Seq<u8>) -> Seq<u8> {
    if s.len() > 0 && s[0] == 43 {
        s.drop_first()
    } else {
        s
    }
}

/// What `u32::from_str` gives for the text whose bytes are `s`: an optional `+`,
/// then at least one ASCII digit and nothing else, with a value that fits in `u32`.
pub open spec fn parse_u32_spec(s: Seq<u8>) -> Option<u32> {
    let d = unsigned_body(s);
    if d.len() > 0 && all_digit_bytes(d) && digits_value(d) <= u32::MAX {
        Some(digits_value(d) as u32)
    } else {
        None
    }
}

/// `String::push`: appends one character.
#[verifier::external_body]
pub(crate) fn push_char(s: &mut String, c: char)
    ensures
        final(s)@ == old(s)@.push(c),
{
    s.push(c);
}

fn digit_to_char(d: u32) -> (c: char)
    requires
        d < 10,
    ensures
        c == digit_char(d as nat),
{
    let b: u8 = 48u8 + (d as u8);
    b as char
}

/// Appends the decimal text of `n` to `out`.
pub fn push_decimal(out: &mut String, n: u32)
    ensures
        final(out)@ == old(out)@ + decimal_chars(n as nat),
    decreases n,
{
    if n >= 10 {
        push_decimal(out, n / 10);
    }
    push_char(out, digit_to_char(n % 10));
    assert(final(out)@ =~= old(out)@ + decimal_chars(n as nat));
}

/// The decimal text of `n`, as `n.to_string()` writes it.
pub fn format_u32(n: u32) -> (s: String)
    ensures
        s@ == decimal_chars(n as nat),
{
    let mut s = String::new();
    push_decimal(&mut s, n);
    proof {
        assert(s@ =~= decimal_chars(n as nat));
    }
    s
}


/// The decimal text of `x`, as `x.to_string()` writes it.
pub fn format_i32(x: i32) -> (s: String)
    ensures
        s@ == signed_decimal_chars(x as int),
{
    let mut s = String::new();
    if x < 0 {
        push_char(&mut s, '-');
        let magnitude: u32 = (0i64 - (x as i64)) as u32;
        push_decimal(&mut s, magnitude);
    } else {
        push_decimal(&mut s, x as u32);
    }
    proof {
        assert(s@ =~= signed_decimal_chars(x as int));
    }
    s
}

/// Dropping the last byte of a run of digits leaves a run of digits.
proof fn lemma_drop_last_digits(d: Seq<u8>)
    requires
        d.len() > 0,
        all_digit_bytes(d),
    ensures
        all_digit_bytes(d.drop_last()),
{
    let e = d.drop_last();
    assert forall|i: int| 0 <= i < e.len() implies is_digit_byte(#[trigger] e[i]) by {
        assert(e[i] == d[i]);
    }
}

/// A longer run of digits never has a smaller value than its prefix.
pub proof fn lemma_digits_value_prefix(d: Seq<u8>, k: int)
    requires
        0 <= k <= d.len(),
        all_digit_bytes(d),
    ensures
        0 <= digits_value(d.take(k)) <= digits_value(d),
    decreases d.len(),
{
    if d.len() == 0 {
        assert(d.take(k) =~= d);
    } else if k == d.len() {
        assert(d.take(k) =~= d);
        lemma_digits_value_nonneg(d);
    } else {
        let e = d.drop_last();
        lemma_drop_last_digits(d);
        lemma_digits_value_prefix(e, k);
        assert(e.take(k) =~= d.take(k));
        assert(is_digit_byte(d[d.len() - 1]));
    }
}

/// The value of a run of digits is never negative.
pub proof fn lemma_digits_value_nonneg(d: Seq<u8>)
    requires
        all_digit_bytes(d),
    ensures
        digits_value(d) >= 0,
    decreases d.len(),
{
    if d.len() > 0 {
        let e = d.drop_last();
        lemma_drop_last_digits(d);
        lemma_digits_value_nonneg(e);
        assert(is_digit_byte(d[d.len() - 1]));
    }
}

/// Reads an unsigned decimal number from the bytes of a text, as
/// `std::str::from_utf8` followed by `str::parse::<u32>` does; `None` where either fails.
pub fn parse_u32(s: &[u8]) -> (r: Option<u32>)
    ensures
        r == parse_u32_spec(s@),
{
    let len = s.len();
    let mut start: usize = 0;
    if len > 0 && s[0] == 43u8 {
        start = 1;
    }
    let ghost d = unsigned_body(s@);
    assert(d =~= s@.subrange(start as int, len as int));
    if start == len {
        return None;
    }
    let mut i: usize = start;
    let mut acc: u64 = 0;
    while i < len
        invariant
            start <= i <= len,
            start < len,
            len == s@.len(),
            d == s@.subrange(start as int, len as int),
            d == unsigned_body(s@),
            all_digit_bytes(d.take(i - start)),
            acc as int == digits_value(d.take(i - start)),
            acc <= u32::MAX,
        decreases len - i,
    {
        let b = s[i];
        let ghost k = i - start;
        if b < 48u8 || b > 57u8 {
            assert(d[k] == b);
            assert(!all_digit_bytes(d));
            return None;
        }
        assert(d.take(k + 1).drop_last() =~= d.take(k));
        assert(d.take(k + 1).last() == b);
        assert(all_digit_bytes(d.take(k + 1))) by {
            assert forall|j: int| 0 <= j < k + 1 implies is_digit_byte(#[trigger] d.take(k + 1)[j]) by {
                if j < k {
                    assert(d.take(k + 1)[j] == d.take(k)[j]);
                }
            }
        }
        acc = acc * 10 + ((b - 48u8) as u64);
        i = i + 1;
        if acc > 4294967295u64 {
            proof {
                if all_digit_bytes(d) {
                    lemma_digits_value_prefix(d, (i - start) as int);
                }
            }
            return None;
        }
    }
    assert(d.take(len - start) =~= d);
    Some(acc as u32)
}


/// The bytes of `decimal_chars(n)`, one per character.
pub open spec fn decimal_bytes(n: nat) -> Seq<u8> {
    Seq::new(decimal_chars(n).len(), |i: int| decimal_chars(n)[i] as u8)
}

proof fn lemma_digit_char(d: nat)
    requires
        d < 10,
    ensures
        digit_char(d) as u8 == d + 48,
        '\0' <= digit_char(d) <= '\u{7f}',
{
}

/// Decimal text is ASCII, made of digits, and reads back as the number it was written from.
pub proof fn lemma_decimal_bytes(n: nat)
    ensures
        is_ascii_chars(decimal_chars(n)),
        decimal_bytes(n).len() == decimal_chars(n).len(),
        decimal_bytes(n).len() > 0,
        all_digit_bytes(decimal_bytes(n)),
        digits_value(decimal_bytes(n)) == n,
    decreases n,
{
    if n < 10 {
        lemma_digit_char(n);
        assert(decimal_bytes(n) =~= seq![(n + 48) as u8]);
        assert(decimal_bytes(n).drop_last() =~= Seq::<u8>::empty());
        assert(digits_value(Seq::<u8>::empty()) == 0);
        assert(digits_value(decimal_bytes(n)) == n);
    } else {
        lemma_decimal_bytes(n / 10);
        lemma_digit_char(n % 10);
        let prev = decimal_chars(n / 10);
        assert(decimal_chars(n) == prev.push(digit_char(n % 10)));
        assert(decimal_bytes(n).drop_last() =~= decimal_bytes(n / 10));
        assert(decimal_bytes(n).last() == (n % 10 + 48) as u8);
        assert(n == (n / 10) * 10 + n % 10);
        assert(digits_value(decimal_bytes(n)) == digits_value(decimal_bytes(n / 10)) * 10 + (n % 10));
        assert(all_digit_bytes(decimal_bytes(n))) by {
            assert forall|i: int| 0 <= i < decimal_bytes(n).len() implies is_digit_byte(
                #[trigger] decimal_bytes(n)[i],
            ) by {
                if i < decimal_bytes(n).len() - 1 {
                    assert(decimal_bytes(n)[i] == decimal_bytes(n / 10)[i]);
                }
            }
        }
        assert(is_ascii_chars(decimal_chars(n))) by {
            assert forall|i: int| 0 <= i < decimal_chars(n).len() implies '\0' <= #[trigger] decimal_chars(n)[i] <= '\u{7f}' by {
                if i < decimal_chars(n).len() - 1 {
                    assert(decimal_chars(n)[i] == prev[i]);
                }
            }
        }
    }
}

/// What `format_u32` writes, `parse_u32` reads back: the UTF-8 bytes of the decimal
/// text of any `u32` parse to that same number.
pub proof fn lemma_parse_format_roundtrip(n: u32)
    ensures
        parse_u32_spec(encode_utf8(decimal_chars(n as nat))) == Some(n),
{
    let chars = decimal_chars(n as nat);
    lemma_decimal_bytes(n as nat);
    is_ascii_chars_encode_utf8(chars);
    let bytes = encode_utf8(chars);
    assert(bytes =~= decimal_bytes(n as nat));
    assert(bytes[0] != 43u8) by {
        assert(is_digit_byte(decimal_bytes(n as nat)[0]));
    }
    assert(unsigned_body(bytes) == bytes);
}

} // verus!
