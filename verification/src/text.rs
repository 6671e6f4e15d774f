//! Appending a character to a string, and telling whether two texts hold
//! the same characters.

use vstd::prelude::*;

verus! {

/// Appends one character to a string, by `String::push`.
#[verifier::external_body]
pub(crate) fn push_char(text: &mut String, c: char)
    ensures
        final(text)@ == old(text)@.push(c),
{
    text.push(c)
}

/// Whether two texts hold the same characters, by the `==` of `str`.
#[verifier::external_body]
pub(crate) fn same_text(left: &str, right: &str) -> (same: bool)
    ensures
        same == (left@ == right@),
{
    left == right
}

} // verus!
