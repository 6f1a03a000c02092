//! How a scan fails.

use std::num::ParseIntError;
use vstd::prelude::*;
use vstd::std_specs::convert::FromSpecImpl;

verus! {

/// Why a path expression was refused.
#[derive(Debug, Eq, PartialEq)]
pub enum LexerError {
    /// The text ended where `expected` had to follow.
    EndOfQuery { expected: String, char_pointer: usize, lex: String },
    /// A bound of a range did not read as a number.
    FailedToParseInt(ParseIntError),
    /// `found` stood where only `expected` may stand.
    UnexpectedCharacter { expected: String, found: String, char_pointer: usize, lex: String },
}

/// What a [`LexerError`] denotes.
pub enum LexerErrorView {
    EndOfQuery { expected: Seq<char>, char_pointer: nat, lex: Seq<char> },
    FailedToParseInt(ParseIntError),
    UnexpectedCharacter { expected: Seq<char>, found: Seq<char>, char_pointer: nat, lex: Seq<char> },
}

impl View for LexerError {
    type V = LexerErrorView;

    open spec fn view(&self) -> LexerErrorView {
        match *self {
            LexerError::EndOfQuery { expected, char_pointer, lex } => LexerErrorView::EndOfQuery {
                expected: expected@,
                char_pointer: char_pointer as nat,
                lex: lex@,
            },
            LexerError::FailedToParseInt(cause) => LexerErrorView::FailedToParseInt(cause),
            LexerError::UnexpectedCharacter {
                expected,
                found,
                char_pointer,
                lex,
            } => LexerErrorView::UnexpectedCharacter {
                expected: expected@,
                found: found@,
                char_pointer: char_pointer as nat,
                lex: lex@,
            },
        }
    }
}

impl From<ParseIntError> for LexerError {
    fn from(e: ParseIntError) -> (r: Self)
        ensures
            r@ == LexerErrorView::FailedToParseInt(e),
    {
        LexerError::FailedToParseInt(e)
    }
}

impl FromSpecImpl<ParseIntError> for LexerError {
    open spec fn obeys_from_spec() -> bool {
        true
    }

    open spec fn from_spec(e: ParseIntError) -> Self {
        LexerError::FailedToParseInt(e)
    }
}

/// What a scanner returns.
pub type LexResult<T> = Result<T, LexerError>;

} // verus!
