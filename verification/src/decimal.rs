//! Decimal text of integers, as it stands in the names of the storage
//! directories.
//!
//! Writing gives the shortest form: the digits without leading zeros, and a
//! minus sign before a negative number. Reading accepts that form and, beyond
//! it, a plus sign and leading zeros; nothing else.

use vstd::prelude::*;

verus! {

/// The character of one decimal digit.
pub open spec fn digit_char(d: int) -> char {
    ((48 + d) as u8) as char
}

/// Whether `c` is one of `0` to `9`.
pub open spec fn is_digit(c: char) -> bool {
    '0' <= c <= '9'
}

/// The digits of `n`, most significant first, without leading zeros.
pub open spec fn digits(n: nat) -> Seq<char>
    decreases n,
{
    if n < 10 {
        seq![digit_char(n as int)]
    } else {
        digits(n / 10).push(digit_char((n % 10) as int))
    }
}

/// The decimal text of `n`.
pub open spec fn decimal(n: int) -> Seq<char> {
    if n < 0 {
        seq!['-'] + digits((-n) as nat)
    } else {
        digits(n as nat)
    }
}

/// Whether every character of `s` is a digit.
pub open spec fn all_digits(s: Seq<char>) -> bool {
    forall|i: int| 0 <= i < s.len() ==> is_digit(#[trigger] s[i])
}

/// The number that a string of digits stands for.
pub open spec fn digits_value(s: Seq<char>) -> nat
    decreases s.len(),
{
    if s.len() == 0 {
        0
    } else {
        (digits_value(s.drop_last()) * 10 + (s.last() as int - 48)) as nat
    }
}

/// Whether `s` starts with a sign.
pub open spec fn has_sign(s: Seq<char>) -> bool {
    s.len() > 0 && (s[0] == '-' || s[0] == '+')
}

/// The part of `s` behind its sign, if it has one.
pub open spec fn unsigned_part(s: Seq<char>) -> Seq<char> {
    if has_sign(s) {
        s.drop_first()
    } else {
        s
    }
}

/// The integer that `s` is the decimal text of: an optional sign, then one
/// digit or more. `None` for any other text.
pub open spec fn parse_integer(s: Seq<char>) -> Option<int> {
    let body = unsigned_part(s);
    if body.len() == 0 || !all_digits(body) {
        None
    } else if has_sign(s) && s[0] == '-' {
        Some(-(digits_value(body) as int))
    } else {
        Some(digits_value(body) as int)
    }
}

/// The `i64` that `s` is the decimal text of; `None` where `s` is no decimal
/// text or the number does not fit.
pub open spec fn parse_i64(s: Seq<char>) -> Option<i64> {
    match parse_integer(s) {
        Some(n) => if i64::MIN <= n <= i64::MAX {
            Some(n as i64)
        } else {
            None
        },
        None => None,
    }
}

/// The `usize` that `s` is the decimal text of; `None` where `s` has a minus
/// sign, is no decimal text, or stands for a number that does not fit.
pub open spec fn parse_usize(s: Seq<char>) -> Option<usize> {
    if s.len() > 0 && s[0] == '-' {
        None
    } else {
        match parse_integer(s) {
            Some(n) => if n <= usize::MAX {
                Some(n as usize)
            } else {
                None
            },
            None => None,
        }
    }
}

/// The digits of a number are digits, and there is at least one.
pub proof fn lemma_digits_are_digits(n: nat)
    ensures
        digits(n).len() > 0,
        all_digits(digits(n)),
    decreases n,
{
    if n >= 10 {
        lemma_digits_are_digits(n / 10);
    }
}

/// A string of digits stands for the number it was written from.
pub proof fn lemma_digits_value(n: nat)
    ensures
        digits_value(digits(n)) == n,
    decreases n,
{
    if n < 10 {
        assert(digits_value(digits(n).drop_last()) == 0);
    } else {
        lemma_digits_value(n / 10);
        assert(digits(n).drop_last() =~= digits(n / 10));
    }
}

/// Reading what was written gives the number back.
pub proof fn lemma_parse_decimal(n: int)
    ensures
        parse_integer(decimal(n)) == Some(n),
{
    let m = if n < 0 { (-n) as nat } else { n as nat };
    lemma_digits_are_digits(m);
    lemma_digits_value(m);
    if n < 0 {
        assert(decimal(n).drop_first() =~= digits(m));
    }
}

/// Among strings of digits, a string stands for no less than any of its
/// beginnings.
pub proof fn lemma_prefix_value(s: Seq<char>, k: int)
    requires
        all_digits(s),
        0 <= k <= s.len(),
    ensures
        digits_value(s.take(k)) <= digits_value(s),
    decreases s.len() - k,
{
    if k == s.len() {
        assert(s.take(k) =~= s);
    } else {
        lemma_prefix_value(s, k + 1);
        assert(s.take(k + 1).drop_last() =~= s.take(k));
    }
}

/// Appends the digits of `n` to `out`.
fn push_digits(n: u128, out: &mut String)
    ensures
        final(out)@ == old(out)@ + digits(n as nat),
    decreases n,
{
    if n >= 10 {
        push_digits(n / 10, out);
    }
    let d: u8 = (n % 10) as u8;
    out.push((48u8 + d) as char);
}

/// The decimal text of `n`.
pub fn format_decimal(n: i128) -> (text: String)
    ensures
        text@ == decimal(n as int),
{
    let mut text = String::new();
    if n < 0 {
        text.push('-');
        let magnitude: u128 = (-(n + 1)) as u128 + 1;
        push_digits(magnitude, &mut text);
    } else {
        push_digits(n as u128, &mut text);
    }
    text
}

/// A text with a character outside ASCII is no decimal text.
proof fn lemma_not_ascii(s: Seq<char>)
    requires
        !vstd::utf8::is_ascii_chars(s),
    ensures
        parse_integer(s) is None,
{
    let i = choose|i: int| 0 <= i < s.len() && !('\0' <= #[trigger] s[i] <= '\u{7f}');
    let body = unsigned_part(s);
    if has_sign(s) {
        assert(!is_digit(body[i - 1]));
    }
}

/// The number that the digits from `start` on stand for, where there is at
/// least one, all are digits, and the number is `limit` at most.
fn read_digits(bytes: &[u8], start: usize, limit: u64, Ghost(body): Ghost<Seq<char>>) -> (value:
    Option<u64>)
    requires
        start <= bytes@.len(),
        body.len() == bytes@.len() - start,
        forall|j: int| 0 <= j < body.len() ==> bytes@[start + j] == (#[trigger] body[j]) as u8,
        vstd::utf8::is_ascii_chars(body),
    ensures
        value == if body.len() > 0 && all_digits(body) && digits_value(body) <= limit {
            Some(digits_value(body) as u64)
        } else {
            None::<u64>
        },
{
    let len = bytes.len();
    if start == len {
        return None;
    }
    let mut acc: u64 = 0;
    let mut i: usize = start;
    while i < len
        invariant
            start <= i <= len,
            len == bytes@.len(),
            body.len() == len - start,
            body.len() > 0,
            vstd::utf8::is_ascii_chars(body),
            forall|j: int| 0 <= j < body.len() ==> bytes@[start + j] == (#[trigger] body[j]) as u8,
            all_digits(body.take(i - start)),
            acc == digits_value(body.take(i - start)),
            acc <= limit,
        decreases len - i,
    {
        let b = bytes[i];
        let ghost k = i - start;
        assert(bytes@[start + k] == body[k] as u8);
        if b < 48u8 || b > 57u8 {
            return None;
        }
        let wide: u128 = acc as u128 * 10 + (b - 48) as u128;
        proof {
            assert(body.take(k + 1).drop_last() =~= body.take(k));
            assert forall|j: int| 0 <= j < k + 1 implies is_digit(#[trigger] body.take(k + 1)[j]) by {
                if j < k {
                    assert(body.take(k)[j] == body.take(k + 1)[j]);
                }
            }
        }
        if wide > limit as u128 {
            proof {
                if all_digits(body) {
                    lemma_prefix_value(body, k + 1);
                }
            }
            return None;
        }
        acc = wide as u64;
        i += 1;
    }
    assert(body.take(i - start) =~= body);
    Some(acc)
}

/// The `i64` that `text` is the decimal text of: an optional sign and then
/// digits only, standing for a number that fits. `None` for any other text.
pub fn parse_decimal(text: &str) -> (parsed: Option<i64>)
    ensures
        parsed == parse_i64(text@),
{
    if !text.is_ascii() {
        proof {
            lemma_not_ascii(text@);
        }
        return None;
    }
    proof {
        vstd::string::is_ascii_spec_bytes(text);
    }
    let bytes = text.as_bytes();
    let mut negative = false;
    let mut start: usize = 0;
    if bytes.len() > 0 && (bytes[0] == 45u8 || bytes[0] == 43u8) {
        negative = bytes[0] == 45u8;
        start = 1;
    }
    let ghost body = unsigned_part(text@);
    assert(body =~= text@.subrange(start as int, bytes@.len() as int));
    match read_digits(bytes, start, 0x8000_0000_0000_0000, Ghost(body)) {
        None => None,
        Some(magnitude) => {
            if negative {
                if magnitude == 0x8000_0000_0000_0000 {
                    Some(i64::MIN)
                } else {
                    Some(-(magnitude as i64))
                }
            } else {
                if magnitude == 0x8000_0000_0000_0000 {
                    None
                } else {
                    Some(magnitude as i64)
                }
            }
        },
    }
}

/// The `usize` that `text` is the decimal text of: an optional plus sign and
/// then digits only, standing for a number that fits. `None` for any other
/// text, and for any with a minus sign.
pub fn parse_decimal_usize(text: &str) -> (parsed: Option<usize>)
    ensures
        parsed == parse_usize(text@),
{
    if !text.is_ascii() {
        proof {
            lemma_not_ascii(text@);
        }
        return None;
    }
    proof {
        vstd::string::is_ascii_spec_bytes(text);
    }
    let bytes = text.as_bytes();
    let mut start: usize = 0;
    if bytes.len() > 0 {
        if bytes[0] == 45u8 {
            return None;
        }
        if bytes[0] == 43u8 {
            start = 1;
        }
    }
    let ghost body = unsigned_part(text@);
    assert(body =~= text@.subrange(start as int, bytes@.len() as int));
    match read_digits(bytes, start, usize::MAX as u64, Ghost(body)) {
        None => None,
        Some(value) => Some(value as usize),
    }
}

} // verus!
