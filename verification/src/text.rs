//! Operations on texts that the standard library carries out.

use vstd::prelude::*;

verus! {

/// Whether a character is white space, as `char::is_whitespace` has it.
pub uninterp spec fn is_whitespace(c: char) -> bool;

/// A text without the white space at its two ends.
pub open spec fn trimmed(text: Seq<char>) -> Seq<char>
    decreases text.len(),
{
    if text.len() > 0 && is_whitespace(text.first()) {
        trimmed(text.drop_first())
    } else if text.len() > 0 && is_whitespace(text.last()) {
        trimmed(text.drop_last())
    } else {
        text
    }
}

/// What is left of a trimmed text neither begins nor ends with white space.
pub proof fn law_trimmed_ends_are_clean(text: Seq<char>)
    ensures
        trimmed(text).len() > 0 ==> !is_whitespace(trimmed(text).first()) && !is_whitespace(
            trimmed(text).last(),
        ),
        trimmed(text).len() <= text.len(),
    decreases text.len(),
{
    if text.len() > 0 && is_whitespace(text.first()) {
        law_trimmed_ends_are_clean(text.drop_first());
    } else if text.len() > 0 && is_whitespace(text.last()) {
        law_trimmed_ends_are_clean(text.drop_last());
    }
}

/// `str::trim`: the part of the text between its leading and its trailing
/// white space, so that what is left neither begins nor ends with any.
#[verifier::external_body]
pub(crate) fn trim(text: &str) -> (r: &str)
    ensures
        r@ == trimmed(text@),
        r@.len() > 0 ==> !is_whitespace(r@.first()) && !is_whitespace(r@.last()),
{
    text.trim()
}

/// `==` of `str`: whether two texts hold the same characters.
#[verifier::external_body]
pub(crate) fn same_text(a: &str, b: &str) -> (r: bool)
    ensures
        r == (a@ == b@),
{
    a == b
}

} // verus!
