//! Text operations of the standard library that the library relies on.

use vstd::prelude::*;
use vstd::string::StringExecFns;

verus! {

/// A text without the white space at its two ends, as the standard library
/// trims it.
pub uninterp spec fn trimmed(text: Seq<char>) -> Seq<char>;

/// Whether a character is a visible ASCII character: between `!` and `~`.
/// None of them is white space.
pub open spec fn is_ascii_graphic(c: char) -> bool {
    '!' <= c <= '~'
}

/// Whether a text begins and ends with a visible ASCII character, so that
/// there is no white space to trim at either end.
pub open spec fn stands_trimmed(text: Seq<char>) -> bool {
    &&& text.len() > 0
    &&& is_ascii_graphic(text[0])
    &&& is_ascii_graphic(text.last())
}

/// Calls `str::trim`. The contract names the result, and claims of it what
/// the documentation gives: only white space at the two ends is removed, so
/// a text that begins and ends with a visible ASCII character is left as it
/// is.
#[verifier::external_body]
pub(crate) fn trim(text: &str) -> (r: &str)
    ensures
        r@ == trimmed(text@),
        stands_trimmed(text@) ==> r@ == text@,
{
    text.trim()
}

/// Calls `str::strip_prefix`. The contract claims what the documentation
/// says: the rest of the text where it starts with the prefix, and none
/// where it does not.
#[verifier::external_body]
pub(crate) fn strip_prefix<'a>(text: &'a str, prefix: &str) -> (rest: Option<&'a str>)
    ensures
        match rest {
            Some(r) => text@ == prefix@ + r@,
            None => !prefix@.is_prefix_of(text@),
        },
{
    text.strip_prefix(prefix)
}

/// The lower-case form of a letter between `A` and `Z`; any other character
/// as it is.
pub open spec fn ascii_lower(c: char) -> char {
    if 'A' <= c <= 'Z' {
        ((c as u8) + 32) as char
    } else {
        c
    }
}

/// Calls `str::to_ascii_lowercase`. The contract claims what the
/// documentation says: the letters `A` to `Z` become `a` to `z`, every
/// other character stays.
#[verifier::external_body]
pub(crate) fn to_ascii_lowercase(text: &str) -> (lower: String)
    ensures
        lower@ == text@.map_values(|c: char| ascii_lower(c)),
{
    text.to_ascii_lowercase()
}

/// The signed 64-bit integer that a text spells, as the standard library
/// reads it; none where the text spells none.
pub uninterp spec fn parsed_i64(text: Seq<char>) -> Option<i64>;

/// Calls `str::parse::<i64>`. The contract names the result.
#[verifier::external_body]
pub(crate) fn parse_i64(text: &str) -> (r: Option<i64>)
    ensures
        r == parsed_i64(text@),
{
    text.parse::<i64>().ok()
}

/// The unsigned 64-bit integer that a text spells, as the standard library
/// reads it; none where the text spells none.
pub uninterp spec fn parsed_u64(text: Seq<char>) -> Option<u64>;

/// Calls `str::parse::<u64>`. The contract names the result.
#[verifier::external_body]
pub(crate) fn parse_u64(text: &str) -> (r: Option<u64>)
    ensures
        r == parsed_u64(text@),
{
    text.parse::<u64>().ok()
}

/// The unsigned 32-bit integer that a text spells, as the standard library
/// reads it; none where the text spells none.
pub uninterp spec fn parsed_u32(text: Seq<char>) -> Option<u32>;

/// Calls `str::parse::<u32>`. The contract names the result.
#[verifier::external_body]
pub(crate) fn parse_u32(text: &str) -> (r: Option<u32>)
    ensures
        r == parsed_u32(text@),
{
    text.parse::<u32>().ok()
}

/// The truth value that a text spells: `true` or `false`, and nothing else.
pub open spec fn parsed_bool(text: Seq<char>) -> Option<bool> {
    if text == "true"@ {
        Some(true)
    } else if text == "false"@ {
        Some(false)
    } else {
        None
    }
}

/// Reads a truth value: only the texts `true` and `false` spell one.
pub fn parse_bool(text: &str) -> (r: Option<bool>)
    ensures
        r == parsed_bool(text@),
{
    let given = text.to_string();
    if given == String::from_str("true") {
        Some(true)
    } else if given == String::from_str("false") {
        Some(false)
    } else {
        None
    }
}

/// The character of a digit between 0 and 9.
pub open spec fn digit(n: int) -> char {
    (('0' as u8) + n) as char
}

/// The decimal digits of a natural number, without leading zeros.
pub open spec fn digits(n: nat) -> Seq<char>
    decreases n,
{
    if n < 10 {
        seq![digit(n as int)]
    } else {
        digits(n / 10).push(digit((n % 10) as int))
    }
}

/// An integer in decimal, with a minus sign where it is negative.
pub open spec fn decimal_text(n: int) -> Seq<char> {
    if n < 0 {
        seq!['-'] + digits((-n) as nat)
    } else {
        digits(n as nat)
    }
}

/// Calls `i128::to_string`. The contract claims what the documentation
/// says: the number in decimal, with a minus sign where it is negative.
#[verifier::external_body]
pub(crate) fn integer_text(n: i128) -> (text: String)
    ensures
        text@ == decimal_text(n as int),
{
    n.to_string()
}

} // verus!
