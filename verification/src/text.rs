//! Text operations of the standard library that the scanners rest on.

use crate::error::{LexerError, LexerErrorView};
use vstd::prelude::*;

verus! {

/// `String::push` appends the one character to the end of the text.
pub assume_specification[ String::push ](text: &mut String, c: char)
    ensures
        final(text)@ == old(text)@.push(c),
;

/// The text that `{:?}` writes for a list of characters.
pub uninterp spec fn debug_text(chars: Seq<char>) -> Seq<char>;

/// Formats `chars` with `{:?}`, as `Vec<char>` implements `Debug`. Trusted: the text
/// is a function of the characters alone.
#[verifier::external_body]
pub(crate) fn debug_string(chars: &Vec<char>) -> (text: String)
    ensures
        text@ == debug_text(chars@),
{
    format!("{:?}", chars)
}

/// The text that `{:?}` writes for an error.
pub uninterp spec fn error_debug_text(error: LexerErrorView) -> Seq<char>;

/// Formats `error` with `{:?}`, as `LexerError` derives `Debug`. Trusted: the text is
/// a function of what the error denotes.
#[verifier::external_body]
pub(crate) fn error_debug_string(error: &LexerError) -> (text: String)
    ensures
        text@ == error_debug_text(error@),
{
    format!("{:?}", error)
}

} // verus!
