//! String operations of the standard library that the graph logic relies on,
//! each with the meaning it has over sequences of characters.

use vstd::prelude::*;

verus! {

/// `pattern` occurs in `text` as a contiguous run of characters.
pub open spec fn is_substring(text: Seq<char>, pattern: Seq<char>) -> bool {
    exists|start: int|
        0 <= start <= text.len() - pattern.len() && #[trigger] text.subrange(
            start,
            start + pattern.len(),
        ) == pattern
}

/// The number that a run of decimal digits denotes, most significant digit first.
pub open spec fn decimal_value(digits: Seq<char>) -> nat
    decreases digits.len(),
{
    if digits.len() == 0 {
        0
    } else {
        decimal_value(digits.drop_last()) * 10 + (digits.last() as nat - '0' as nat) as nat
    }
}

/// Every character is one of `0` to `9`.
pub open spec fn all_decimal_digits(digits: Seq<char>) -> bool {
    forall|i: int| 0 <= i < digits.len() ==> '0' <= #[trigger] digits[i] <= '9'
}

/// `text` without one leading plus sign, if it has one.
pub open spec fn without_plus_sign(text: Seq<char>) -> Seq<char> {
    if text.len() > 0 && text[0] == '+' {
        text.subrange(1, text.len() as int)
    } else {
        text
    }
}

/// What a text denotes as an unsigned 32-bit decimal number: an optional plus
/// sign, then at least one digit and nothing else, the value within range.
pub open spec fn decimal_u32(text: Seq<char>) -> Option<u32> {
    let digits = without_plus_sign(text);
    if digits.len() > 0 && all_decimal_digits(digits) && decimal_value(digits) <= u32::MAX {
        Some(decimal_value(digits) as u32)
    } else {
        None
    }
}

/// Calls `str::contains` with a string pattern. The standard library documents
/// that it returns true exactly when the pattern matches a sub-slice of the
/// text; for a string pattern that is an occurrence of the pattern's characters.
#[verifier::external_body]
pub(crate) fn contains(text: &str, pattern: &str) -> (found: bool)
    ensures
        found == is_substring(text@, pattern@),
{
    text.contains(pattern)
}

/// Calls `==` of `str`, which compares the two texts character by character.
#[verifier::external_body]
pub(crate) fn same_text(left: &str, right: &str) -> (same: bool)
    ensures
        same == (left@ == right@),
{
    left == right
}

/// Calls `str::parse::<u32>`. The standard library documents the accepted
/// form as an optional `+` followed by decimal digits only; an empty text, any
/// other character and a value above `u32::MAX` are errors.
#[verifier::external_body]
pub(crate) fn parse_u32(text: &str) -> (parsed: Option<u32>)
    ensures
        parsed == decimal_u32(text@),
{
    text.parse::<u32>().ok()
}

} // verus!
