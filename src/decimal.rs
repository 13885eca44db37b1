//! Decimal text: what a number written in base ten means, and the parsers
//! and formatter that the rest of the library relies on.
use vstd::prelude::*;
use num_traits::Num;

verus! {

/// Whether `c` is one of the ASCII digits `0` to `9`.
pub open spec fn is_digit(c: char) -> bool {
    '0' <= c && c <= '9'
}

/// Whether `s` is a non-empty run of decimal digits.
pub open spec fn all_digits(s: Seq<char>) -> bool {
    s.len() > 0 && forall|i: int| 0 <= i < s.len() ==> is_digit(#[trigger] s[i])
}

/// The value of a run of decimal digits, most significant first.
pub open spec fn digits_value(s: Seq<char>) -> nat
    decreases s.len(),
{
    if s.len() == 0 {
        0
    } else {
        digits_value(s.drop_last()) * 10 + (s.last() as u32 - '0' as u32) as nat
    }
}

/// The number that `s` writes: an optional `+` sign (or `-`, where `signed`)
/// followed by one or more decimal digits, and nothing else. `None` where `s`
/// has any other shape.
pub open spec fn decimal_value(s: Seq<char>, signed: bool) -> Option<int> {
    if s.len() > 0 && s[0] == '+' && all_digits(s.skip(1)) {
        Some(digits_value(s.skip(1)) as int)
    } else if signed && s.len() > 0 && s[0] == '-' && all_digits(s.skip(1)) {
        Some(-(digits_value(s.skip(1)) as int))
    } else if all_digits(s) {
        Some(digits_value(s) as int)
    } else {
        None
    }
}

/// What `s` parses to as an `i32`: its decimal value where that fits.
pub open spec fn i32_of(s: Seq<char>) -> Option<i32> {
    match decimal_value(s, true) {
        Some(v) => if i32::MIN <= v <= i32::MAX { Some(v as i32) } else { None },
        None => None,
    }
}

/// What `s` parses to as a `usize`: its unsigned decimal value where that fits.
pub open spec fn usize_of(s: Seq<char>) -> Option<usize> {
    match decimal_value(s, false) {
        Some(v) => if 0 <= v <= usize::MAX { Some(v as usize) } else { None },
        None => None,
    }
}

/// The character of a single decimal digit.
pub open spec fn digit_char(d: nat) -> char
    recommends
        d < 10,
{
    seq!['0', '1', '2', '3', '4', '5', '6', '7', '8', '9'][d as int]
}

/// The decimal text of `n`, with no sign and no leading zeros.
pub open spec fn decimal_text(n: nat) -> Seq<char>
    decreases n,
{
    if n < 10 {
        seq![digit_char(n)]
    } else {
        decimal_text(n / 10) + seq![digit_char(n % 10)]
    }
}

/// Relies on `num_traits::Num::from_str_radix` for `i32`, which hands the
/// text to the standard library's `i32::from_str_radix`: an optional sign
/// followed by decimal digits, and an error on any other text or on a value
/// that does not fit.
#[verifier::external_body]
pub(crate) fn parse_i32(s: &str) -> (r: Option<i32>)
    ensures
        r == i32_of(s@),
{
    <i32 as Num>::from_str_radix(s, 10).ok()
}

/// Relies on the standard library's `usize::from_str_radix`: an optional `+`
/// followed by decimal digits, and an error on any other text or on a value
/// that does not fit.
#[verifier::external_body]
pub(crate) fn parse_usize(s: &str) -> (r: Option<usize>)
    ensures
        r == usize_of(s@),
{
    usize::from_str_radix(s, 10).ok()
}

/// Relies on `format!` with the standard library's `Display` for `usize`,
/// which writes the number in decimal: the text `prefix` followed by `n`.
#[verifier::external_body]
pub(crate) fn with_number(prefix: &str, n: usize) -> (r: String)
    ensures
        r@ == prefix@ + decimal_text(n as nat),
{
    format!("{}{}", prefix, n)
}

} // verus!
