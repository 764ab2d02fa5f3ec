//! What the library asks of the standard library's text functions.
//!
//! Each executable function here stands for one function of the standard
//! library and states what this crate relies on: what the library's
//! documentation says it returns. None of these statements is proved.

use vstd::prelude::*;

verus! {

/// Whether `pattern` occurs in `text` as a run of consecutive characters.
pub open spec fn contains_substring(text: Seq<char>, pattern: Seq<char>) -> bool {
    exists|i: int|
        0 <= i <= text.len() - pattern.len() && #[trigger] text.subrange(i, i + pattern.len())
            == pattern
}

/// The text in lower case, as `str::to_lowercase` gives it.
pub uninterp spec fn lowercase(text: Seq<char>) -> Seq<char>;

/// The value of a character as a digit in a base: `0` to `9` count from
/// zero, `a` to `z` and `A` to `Z` from ten. A character that is none of
/// these, or counts for as much as the base or more, is no digit.
pub open spec fn digit_value(c: char, radix: int) -> Option<int> {
    let n = c as u32 as int;
    let v = if 48 <= n <= 57 {
        n - 48
    } else if 97 <= n <= 122 {
        n - 87
    } else if 65 <= n <= 90 {
        n - 55
    } else {
        radix
    };
    if v < radix {
        Some(v)
    } else {
        None
    }
}

/// The number that a run of digits stands for in a base, the most
/// significant digit first, or `None` if a character is no digit of the
/// base. The empty run stands for zero.
pub open spec fn digits_value(digits: Seq<char>, radix: int) -> Option<int>
    decreases digits.len(),
{
    if digits.len() == 0 {
        Some(0)
    } else {
        match (digits_value(digits.drop_last(), radix), digit_value(digits.last(), radix)) {
            (Some(front), Some(last)) => Some(front * radix + last),
            _ => None,
        }
    }
}

/// The number that a text stands for without a sign of its own: a `+` may
/// come first, then one digit at least and digits only.
pub open spec fn unsigned_value(text: Seq<char>, radix: int) -> Option<int> {
    let digits = if text.len() > 0 && text[0] == '+' {
        text.drop_first()
    } else {
        text
    };
    if digits.len() == 0 {
        None
    } else {
        digits_value(digits, radix)
    }
}

/// The number that a text stands for: a `+` or a `-` may come first, then
/// one digit at least and digits only.
pub open spec fn signed_value(text: Seq<char>, radix: int) -> Option<int> {
    if text.len() > 0 && text[0] == '-' {
        let digits = text.drop_first();
        if digits.len() == 0 {
            None
        } else {
            match digits_value(digits, radix) {
                Some(v) => Some(-v),
                None => None,
            }
        }
    } else {
        unsigned_value(text, radix)
    }
}

/// The number that `str::parse::<u64>` reads out of a text: the unsigned
/// number that the text stands for in base 10, if it fits in a `u64`.
pub open spec fn decimal_u64(text: Seq<char>) -> Option<u64> {
    match unsigned_value(text, 10) {
        Some(v) if v <= u64::MAX => Some(v as u64),
        _ => None,
    }
}

/// The number that `str::parse::<i64>` reads out of a text: the number that
/// the text stands for in base 10, if it fits in an `i64`.
pub open spec fn decimal_i64(text: Seq<char>) -> Option<i64> {
    match signed_value(text, 10) {
        Some(v) if i64::MIN <= v <= i64::MAX => Some(v as i64),
        _ => None,
    }
}

/// The number that `u64::from_str_radix` reads out of a text in base 16:
/// the unsigned number that the text stands for, if it fits in a `u64`.
pub open spec fn hex_u64(digits: Seq<char>) -> Option<u64> {
    match unsigned_value(digits, 16) {
        Some(v) if v <= u64::MAX => Some(v as u64),
        _ => None,
    }
}

/// `str::contains` with a string as the pattern. The standard library
/// documents it as true exactly if the pattern matches a sub-slice of the
/// text; a match of whole characters in the bytes is one in the characters.
#[verifier::external_body]
pub(crate) fn str_contains(text: &str, pattern: &str) -> (b: bool)
    ensures
        b == contains_substring(text@, pattern@),
{
    text.contains(pattern)
}

/// `==` on string slices: whether the two hold the same characters.
#[verifier::external_body]
pub(crate) fn str_eq(a: &str, b: &str) -> (same: bool)
    ensures
        same == (a@ == b@),
{
    a == b
}

/// `str::to_lowercase`. The result depends on the text alone: the mapping is
/// that of the Unicode tables, whatever the locale.
#[verifier::external_body]
pub(crate) fn to_lowercase(text: &str) -> (lower: String)
    ensures
        lower@ == lowercase(text@),
{
    text.to_lowercase()
}

/// `str::parse::<u64>`, with the reason of a failure dropped. The standard
/// library documents what it reads: an optional `+`, then decimal digits
/// only, one at least; no space, no underscore, no `-`; and a value that
/// fits the type.
#[verifier::external_body]
pub(crate) fn parse_u64(text: &str) -> (value: Option<u64>)
    ensures
        value == decimal_u64(text@),
{
    text.parse::<u64>().ok()
}

/// `str::parse::<i64>`, with the reason of a failure dropped. The standard
/// library documents what it reads: an optional `+` or `-`, then decimal
/// digits only, one at least; and a value that fits the type.
#[verifier::external_body]
pub(crate) fn parse_i64(text: &str) -> (value: Option<i64>)
    ensures
        value == decimal_i64(text@),
{
    text.parse::<i64>().ok()
}

/// `u64::from_str_radix` in base 16, with the reason of a failure dropped.
/// The standard library documents what it reads: an optional `+`, then
/// digits only, one at least, of `0` to `9`, `a` to `f` and `A` to `F`; and
/// a value that fits the type.
#[verifier::external_body]
pub(crate) fn parse_hex_u64(digits: &str) -> (value: Option<u64>)
    ensures
        value == hex_u64(digits@),
{
    u64::from_str_radix(digits, 16).ok()
}

} // verus!
