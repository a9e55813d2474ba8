//! Text transformations of the standard library that the host's messages
//! and its reading of a method rest on.

use vstd::prelude::*;

verus! {

/// The text `text` written as a quoted, escaped string: what `{:?}` prints
/// for it.
pub uninterp spec fn debug_text(text: Seq<char>) -> Seq<char>;

/// The text `text` in upper case, by the Unicode rules of `str::to_uppercase`.
pub uninterp spec fn uppercase_text(text: Seq<char>) -> Seq<char>;

/// Whether a text is made of ASCII characters alone.
pub open spec fn spec_is_ascii(text: Seq<char>) -> bool {
    forall|i: int| 0 <= i < text.len() ==> (#[trigger] text[i]) <= '\u{7f}'
}

/// An ASCII character in upper case: a lower-case letter becomes its
/// capital, any other character stays.
pub open spec fn spec_ascii_upper_char(c: char) -> char {
    if 'a' <= c && c <= 'z' {
        ((c as u8 - 32) as u8) as char
    } else {
        c
    }
}

/// A text in upper case. Of an ASCII text each lower-case letter becomes its
/// capital and nothing else changes; any other text is changed by the
/// Unicode rules.
pub open spec fn spec_upper(text: Seq<char>) -> Seq<char> {
    if spec_is_ascii(text) {
        Seq::new(text.len(), |i: int| spec_ascii_upper_char(text[i]))
    } else {
        uppercase_text(text)
    }
}

/// Formats a string with `{:?}` (the `Debug` impl of `str`). The contract
/// only names the result, which depends on the text alone.
#[verifier::external_body]
pub(crate) fn quote(text: &str) -> (quoted: String)
    ensures
        quoted@ == debug_text(text@),
{
    format!("{:?}", text)
}

/// Calls `str::to_uppercase`. Of an ASCII text the result is the text with
/// each lower-case letter as its capital; of any other text the contract
/// only names the result, which depends on the text alone.
#[verifier::external_body]
pub(crate) fn to_upper(text: &str) -> (upper: String)
    ensures
        upper@ == (if spec_is_ascii(text@) {
            Seq::new(text@.len(), |i: int| spec_ascii_upper_char(text@[i]))
        } else {
            uppercase_text(text@)
        }),
{
    text.to_uppercase()
}

/// Calls `String::push`: the character is appended to the text.
#[verifier::external_body]
pub(crate) fn push_char(text: &mut String, c: char)
    ensures
        final(text)@ == old(text)@.push(c),
{
    text.push(c)
}

/// Whether two strings hold the same text.
pub fn same_text(a: &str, b: &str) -> (same: bool)
    ensures
        same == (a@ == b@),
{
    let left = a.to_owned();
    let right = b.to_owned();
    left == right
}

} // verus!
