//! The controls of a batch: the target format of a conversion and the quality
//! of a compression, as they are resolved from the text of a form field.

use vstd::prelude::*;
use vstd::string::*;
use crate::text::chars_of;

verus! {

/// The quality used when a request names none, or names one that is no
/// 32-bit integer.
pub const DEFAULT_QUALITY: i32 = 60;

/// The lowest quality that is handed to an encoder.
pub const MIN_QUALITY: i32 = 1;

/// The highest quality that is handed to an encoder.
pub const MAX_QUALITY: i32 = 100;

/// Whether a character is one of the ten decimal digits.
pub open spec fn is_digit(c: char) -> bool {
    '0' <= c <= '9'
}

/// The number that a decimal digit stands for.
pub open spec fn digit_value(c: char) -> int {
    c as int - '0' as int
}

/// Whether a text holds decimal digits and nothing else.
pub open spec fn all_digits(s: Seq<char>) -> bool {
    forall|i: int| 0 <= i < s.len() ==> is_digit(#[trigger] s[i])
}

/// The number that a run of decimal digits writes, the first digit weighing
/// most. Leading zeros are allowed and change nothing.
pub open spec fn decimal_value(digits: Seq<char>) -> int
    decreases digits.len(),
{
    if digits.len() == 0 {
        0
    } else {
        10 * decimal_value(digits.drop_last()) + digit_value(digits.last())
    }
}

/// Whether the text opens with a sign.
pub open spec fn has_sign(text: Seq<char>) -> bool {
    text.len() > 0 && (text[0] == '-' || text[0] == '+')
}

/// The part of the text behind its sign, if it has one.
pub open spec fn unsigned_part(text: Seq<char>) -> Seq<char> {
    if has_sign(text) {
        text.skip(1)
    } else {
        text
    }
}

/// The integer that a text writes in decimal: an optional sign, then one
/// digit or more, and nothing else. `None` for any other text, and for a
/// number outside the 32-bit signed range.
pub open spec fn parsed_integer(text: Seq<char>) -> Option<int> {
    let digits = unsigned_part(text);
    let magnitude = decimal_value(digits);
    let value = if has_sign(text) && text[0] == '-' {
        -magnitude
    } else {
        magnitude
    };
    if digits.len() == 0 || !all_digits(digits) {
        None
    } else if value < i32::MIN || value > i32::MAX {
        None
    } else {
        Some(value)
    }
}

/// A number brought into the range from `MIN_QUALITY` to `MAX_QUALITY`.
pub open spec fn clamped(q: int) -> int {
    if q < MIN_QUALITY {
        MIN_QUALITY as int
    } else if q > MAX_QUALITY {
        MAX_QUALITY as int
    } else {
        q
    }
}

/// The quality that the text of a `quality` field stands for: the integer it
/// writes, or the default where it writes none, brought into range.
pub open spec fn quality_of_text(text: Seq<char>) -> int {
    match parsed_integer(text) {
        Some(v) => clamped(v),
        None => clamped(DEFAULT_QUALITY as int),
    }
}

/// A longer run of digits never writes a smaller number.
pub proof fn lemma_decimal_value_grows(digits: Seq<char>, k: int)
    requires
        all_digits(digits),
        0 <= k <= digits.len(),
    ensures
        0 <= decimal_value(digits.take(k)) <= decimal_value(digits),
    decreases digits.len() - k,
{
    lemma_decimal_value_nonnegative(digits.take(k));
    if k == digits.len() {
        assert(digits.take(k) =~= digits);
    } else {
        lemma_decimal_value_grows(digits, k + 1);
        let longer = digits.take(k + 1);
        assert(longer.drop_last() =~= digits.take(k));
        assert(is_digit(digits[k]));
        assert(longer.last() == digits[k]);
    }
}

/// A run of digits writes no negative number.
pub proof fn lemma_decimal_value_nonnegative(digits: Seq<char>)
    requires
        all_digits(digits),
    ensures
        0 <= decimal_value(digits),
    decreases digits.len(),
{
    if digits.len() > 0 {
        let shorter = digits.drop_last();
        assert forall|i: int| 0 <= i < shorter.len() implies is_digit(#[trigger] shorter[i]) by {
            assert(shorter[i] == digits[i]);
        }
        lemma_decimal_value_nonnegative(shorter);
        assert(is_digit(digits.last()));
    }
}

/// Brings a number into the range of qualities.
pub fn clamp_quality(q: i32) -> (r: i32)
    ensures
        r == clamped(q as int),
        MIN_QUALITY <= r <= MAX_QUALITY,
{
    if q < MIN_QUALITY {
        MIN_QUALITY
    } else if q > MAX_QUALITY {
        MAX_QUALITY
    } else {
        q
    }
}

/// Reads a 32-bit signed integer in decimal.
pub fn parse_integer(text: &str) -> (r: Option<i32>)
    ensures
        match r {
            Some(v) => parsed_integer(text@) == Some(v as int),
            None => parsed_integer(text@) is None,
        },
{
    let chars = chars_of(text);
    let n: usize = chars.len();
    let mut start: usize = 0;
    let mut negative: bool = false;
    if n > 0 {
        let first: char = chars[0];
        if first == '-' {
            negative = true;
            start = 1;
        } else if first == '+' {
            start = 1;
        }
    }
    let ghost digits: Seq<char> = unsigned_part(text@);
    assert(digits =~= text@.skip(start as int));
    assert(negative == (has_sign(text@) && text@[0] == '-'));
    if start == n {
        return None;
    }
    // The magnitude of the smallest 32-bit integer: the largest that any
    // accepted text may reach, and one more than a text without `-` may.
    let limit: i64 = 2147483648;
    let mut acc: i64 = 0;
    let mut i: usize = start;
    while i < n
        invariant
            start <= i <= n,
            n == chars@.len(),
            chars@ == text@,
            digits == unsigned_part(text@),
            digits.len() == n - start,
            all_digits(digits.take(i - start)),
            acc == decimal_value(digits.take(i - start)),
            0 <= acc <= limit,
            limit == 2147483648,
        decreases n - i,
    {
        let c: char = chars[i];
        assert(digits[i - start] == c);
        if c < '0' || c > '9' {
            assert(!is_digit(digits[i - start]));
            return None;
        }
        let d: i64 = (c as u32 - '0' as u32) as i64;
        let ghost before = digits.take(i - start);
        let ghost after = digits.take(i - start + 1);
        proof {
            assert(after.drop_last() =~= before);
            assert(after.last() == c);
            assert(d == digit_value(c));
            assert forall|j: int| 0 <= j < after.len() implies is_digit(#[trigger] after[j]) by {
                if j < before.len() {
                    assert(after[j] == before[j]);
                }
            }
        }
        let next: i64 = acc * 10 + d;
        if next > limit {
            // Anything that follows either is no digit or makes the number larger still.
            proof {
                assert(decimal_value(after) == next);
                if all_digits(digits) {
                    lemma_decimal_value_grows(digits, i - start + 1);
                    assert(decimal_value(digits) > limit);
                }
            }
            return None;
        }
        acc = next;
        i = i + 1;
    }
    assert(digits.take(n - start) =~= digits);
    if negative {
        Some((0 - acc) as i32)
    } else if acc == limit {
        None
    } else {
        Some(acc as i32)
    }
}

/// The quality of a compression, from the text of the `quality` field.
pub fn quality_from_text(text: &str) -> (q: i32)
    ensures
        q == quality_of_text(text@),
        MIN_QUALITY <= q <= MAX_QUALITY,
{
    match parse_integer(text) {
        Some(v) => clamp_quality(v),
        None => clamp_quality(DEFAULT_QUALITY),
    }
}

/// The format that is taken where a request names none.
pub open spec fn default_format() -> Seq<char> {
    "webp"@
}

/// The target format of a conversion: the one that the request names, or the
/// default where it names none or an empty one.
pub open spec fn resolved_format(requested: Seq<char>) -> Seq<char> {
    if requested.len() == 0 {
        default_format()
    } else {
        requested
    }
}

/// The target format of a conversion, from the text of the `format` field.
pub fn resolve_format(requested: &str) -> (r: String)
    ensures
        r@ == resolved_format(requested@),
{
    if requested.is_empty() {
        "webp".to_owned()
    } else {
        requested.to_owned()
    }
}

} // verus!
