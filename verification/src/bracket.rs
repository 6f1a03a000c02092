//! The bracket scanner: from the characters behind an opening bracket to the index
//! that they spell.

use crate::cursor::{lemma_unread_twice, take_next, unread};
use crate::error::{LexResult, LexerError, LexerErrorView};
use crate::lexer_constants::{
    LEX_ESCAPE, LEX_GENERIC_END, LEX_GENERIC_SEPARATOR, LEX_GENERIC_SLICE, LEX_ROUGE_WIDESPACE,
};
use crate::number::parse_usize;
use crate::scan::{
    fault_error, resolve, scan_bracket, BracketFaultView, BracketState, BracketStep,
};
use crate::text::debug_string;
use crate::values::{slicers_view, GenericObjectIndex, Slicer, SlicerView};
use std::num::ParseIntError;
use vstd::prelude::*;

verus! {

/// What an optional bound denotes.
pub open spec fn bound_view(bound: Option<usize>) -> Option<nat> {
    match bound {
        Some(n) => Some(n as nat),
        None => None,
    }
}

/// What an attempt to read a number denotes.
pub open spec fn parsed_view(parsed: Result<usize, ParseIntError>) -> Result<nat, ParseIntError> {
    match parsed {
        Ok(n) => Ok(n as nat),
        Err(cause) => Err(cause),
    }
}

/// What a result denotes: the view of the value, or the view of the error.
pub open spec fn result_view<T: View>(r: LexResult<T>) -> Result<T::V, LexerErrorView> {
    match r {
        Ok(value) => Ok(value@),
        Err(error) => Err(error@),
    }
}

/// What a selector or the error in its place denotes.
pub open spec fn slicer_result_view(r: Result<Slicer, ParseIntError>) -> Result<
    SlicerView,
    ParseIntError,
> {
    match r {
        Ok(slicer) => Ok(slicer@),
        Err(cause) => Err(cause),
    }
}

/// Why the bracket scanner fails.
#[derive(Debug, Eq, PartialEq)]
pub enum BracketFault {
    /// The text ended before the closing bracket.
    Unclosed,
    /// A separator or range marker with nothing before it.
    NothingBefore,
    /// A range marker behind text that is no number.
    StartNotNumber,
    /// A range whose upper bound is no number.
    EndNotNumber(ParseIntError),
}

impl View for BracketFault {
    type V = BracketFaultView;

    open spec fn view(&self) -> BracketFaultView {
        match *self {
            BracketFault::Unclosed => BracketFaultView::Unclosed,
            BracketFault::NothingBefore => BracketFaultView::NothingBefore,
            BracketFault::StartNotNumber => BracketFaultView::StartNotNumber,
            BracketFault::EndNotNumber(cause) => BracketFaultView::EndNotNumber(cause),
        }
    }
}

impl BracketFault {
    /// The error for the fault, met with `char_pointer` characters consumed; `lex` is
    /// the snapshot of the unread text that the error carries.
    pub fn into_error(self, char_pointer: usize, lex: String) -> (e: LexerError)
        ensures
            e@ == fault_error(self@, char_pointer as nat, lex@),
    {
        match self {
            BracketFault::Unclosed => {
                let mut expected = String::new();
                expected.push(LEX_GENERIC_END);
                LexerError::EndOfQuery { expected, char_pointer, lex }
            },
            BracketFault::NothingBefore => {
                let mut found = String::new();
                found.push(LEX_GENERIC_SEPARATOR);
                LexerError::UnexpectedCharacter {
                    expected: "Integer/String".to_string(),
                    found,
                    char_pointer,
                    lex,
                }
            },
            BracketFault::StartNotNumber => LexerError::UnexpectedCharacter {
                expected: "Integer".to_string(),
                found: "String".to_string(),
                char_pointer,
                lex,
            },
            BracketFault::EndNotNumber(cause) => LexerError::from(cause),
        }
    }
}

/// Turns the buffered text `collect` into the selector that it stands for, where
/// `parsed` is what reading it as a number gave: with a lower bound in `tmp_slice` the
/// range up to that number, or the error; else the position, or the text as a key.
pub fn resolve_slicer(
    collect: String,
    tmp_slice: Option<usize>,
    parsed: Result<usize, ParseIntError>,
) -> (r: Result<Slicer, ParseIntError>)
    ensures
        slicer_result_view(r) == resolve(collect@, bound_view(tmp_slice), parsed_view(parsed)),
{
    match tmp_slice {
        Some(from) => match parsed {
            Ok(to) => Ok(Slicer::Slice(from, to)),
            Err(cause) => Err(cause),
        },
        None => match parsed {
            Ok(n) => Ok(Slicer::Index(n)),
            Err(_) => Ok(Slicer::Ident(collect)),
        },
    }
}

/// The state of the bracket scanner.
#[derive(Debug, Eq, PartialEq)]
pub struct BracketScan {
    /// The text of the selector that is being read.
    pub collect: String,
    /// The selectors that are complete.
    pub slicer: Vec<Slicer>,
    /// The lower bound of a range whose upper bound is being read.
    pub tmp_slice: Option<usize>,
    /// Whether the next character is taken literally.
    pub escape: bool,
}

impl View for BracketScan {
    type V = BracketState;

    open spec fn view(&self) -> BracketState {
        BracketState {
            buffer: self.collect@,
            slicers: slicers_view(self.slicer@),
            pending: bound_view(self.tmp_slice),
            escaped: self.escape,
        }
    }
}

/// What one character does to the bracket scanner.
#[derive(Debug, Eq, PartialEq)]
pub enum BracketMove {
    /// Scanning goes on in the given state.
    Continue(BracketScan),
    /// The closing bracket was read: the index is complete.
    Close(GenericObjectIndex),
    /// The character cannot stand here.
    Fail(BracketFault),
}

impl View for BracketMove {
    type V = BracketStep;

    open spec fn view(&self) -> BracketStep {
        match *self {
            BracketMove::Continue(scan) => BracketStep::Continue(scan@),
            BracketMove::Close(index) => BracketStep::Close(index@),
            BracketMove::Fail(fault) => BracketStep::Fail(fault@),
        }
    }
}

impl BracketScan {
    /// Whether nothing has been read that could become a selector.
    pub fn is_blank(&self) -> (r: bool)
        ensures
            r == self@.is_blank(),
    {
        self.collect.as_str().is_empty() && self.slicer.is_empty()
    }

    /// Adds `c` to the buffer.
    pub fn buffered(self, c: char) -> (r: BracketScan)
        ensures
            r@ == self@.buffered(c),
    {
        let mut collect = self.collect;
        collect.push(c);
        BracketScan { collect, slicer: self.slicer, tmp_slice: self.tmp_slice, escape: false }
    }

    /// Reads the closing bracket, where `parsed` is what reading the buffer as a number
    /// gave.
    pub fn close(self, parsed: Result<usize, ParseIntError>) -> (r: BracketMove)
        ensures
            r@ == self@.close(parsed_view(parsed)),
    {
        if self.is_blank() {
            BracketMove::Close(GenericObjectIndex::Wildcard)
        } else if self.collect.as_str().is_empty() {
            BracketMove::Close(GenericObjectIndex::Slice(self.slicer))
        } else {
            let mut slicer = self.slicer;
            match resolve_slicer(self.collect, self.tmp_slice, parsed) {
                Ok(item) => {
                    assert(slicers_view(slicer@.push(item)) =~= slicers_view(slicer@).push(item@));
                    slicer.push(item);
                    BracketMove::Close(GenericObjectIndex::Slice(slicer))
                },
                Err(cause) => BracketMove::Fail(BracketFault::EndNotNumber(cause)),
            }
        }
    }

    /// Reads a separator, where `parsed` is what reading the buffer as a number gave.
    pub fn separate(self, parsed: Result<usize, ParseIntError>) -> (r: BracketMove)
        ensures
            r@ == self@.separate(parsed_view(parsed)),
    {
        if self.is_blank() {
            BracketMove::Fail(BracketFault::NothingBefore)
        } else {
            let mut slicer = self.slicer;
            match resolve_slicer(self.collect, self.tmp_slice, parsed) {
                Ok(item) => {
                    assert(slicers_view(slicer@.push(item)) =~= slicers_view(slicer@).push(item@));
                    slicer.push(item);
                    BracketMove::Continue(
                        BracketScan {
                            collect: String::new(),
                            slicer,
                            tmp_slice: None,
                            escape: false,
                        },
                    )
                },
                Err(cause) => BracketMove::Fail(BracketFault::EndNotNumber(cause)),
            }
        }
    }

    /// Reads a range marker, where `parsed` is what reading the buffer as a number
    /// gave.
    pub fn range(self, parsed: Result<usize, ParseIntError>) -> (r: BracketMove)
        ensures
            r@ == self@.range(parsed_view(parsed)),
    {
        if self.is_blank() {
            BracketMove::Fail(BracketFault::NothingBefore)
        } else {
            match parsed {
                Ok(from) => BracketMove::Continue(
                    BracketScan {
                        collect: String::new(),
                        slicer: self.slicer,
                        tmp_slice: Some(from),
                        escape: false,
                    },
                ),
                Err(_) => BracketMove::Fail(BracketFault::StartNotNumber),
            }
        }
    }

    /// Reads the character `c`.
    pub fn step(self, c: char) -> (r: BracketMove)
        ensures
            r@ == self@.step(c),
    {
        if self.escape {
            BracketMove::Continue(self.buffered(c))
        } else if c == LEX_ESCAPE {
            BracketMove::Continue(
                BracketScan {
                    collect: self.collect,
                    slicer: self.slicer,
                    tmp_slice: self.tmp_slice,
                    escape: true,
                },
            )
        } else if c == LEX_GENERIC_END {
            let parsed = parse_usize(self.collect.as_str());
            self.close(parsed)
        } else if c == LEX_GENERIC_SEPARATOR {
            let parsed = parse_usize(self.collect.as_str());
            self.separate(parsed)
        } else if c == LEX_GENERIC_SLICE {
            let parsed = parse_usize(self.collect.as_str());
            self.range(parsed)
        } else if c == LEX_ROUGE_WIDESPACE {
            BracketMove::Continue(self)
        } else {
            BracketMove::Continue(self.buffered(c))
        }
    }
}

/// Reads a bracketed index from behind its opening bracket up to its closing bracket.
///
/// `lexer_vec` holds the unread characters as a stack, the next one on top.
/// `collect`, `slicer`, `tmp_slice` and `escape` are the state to start from, and
/// `char_pointer` is the number of characters consumed before. The characters up to
/// the closing bracket, or up to the one that cannot stand where it does, leave the
/// stack.
#[verifier::loop_isolation(false)]
pub fn generic_object_index(
    lexer_vec: &mut Vec<char>,
    collect: String,
    slicer: Vec<Slicer>,
    tmp_slice: Option<usize>,
    escape: bool,
    char_pointer: usize,
) -> (r: LexResult<GenericObjectIndex>)
    requires
        char_pointer + old(lexer_vec).len() <= usize::MAX,
    ensures
        ({
            let out = scan_bracket(
                unread(old(lexer_vec)@),
                BracketState {
                    buffer: collect@,
                    slicers: slicers_view(slicer@),
                    pending: bound_view(tmp_slice),
                    escaped: escape,
                },
                char_pointer as nat,
            );
            &&& result_view(r) == out.result
            &&& unread(final(lexer_vec)@) == out.rest
        }),
{
    let mut scan = BracketScan { collect, slicer, tmp_slice, escape };
    let ghost start = scan@;
    let mut count = char_pointer;
    loop
        invariant
            count + lexer_vec.len() <= usize::MAX,
            scan_bracket(unread(lexer_vec@), scan@, count as nat) == scan_bracket(
                unread(old(lexer_vec)@),
                start,
                char_pointer as nat,
            ),
        decreases lexer_vec@.len(),
    {
        match take_next(lexer_vec, &mut count) {
            None => {
                proof {
                    lemma_unread_twice(lexer_vec@);
                }
                return Err(BracketFault::Unclosed.into_error(count, debug_string(lexer_vec)));
            },
            Some(c) => {
                proof {
                    lemma_unread_twice(lexer_vec@);
                }
                match scan.step(c) {
                    BracketMove::Continue(next) => {
                        scan = next;
                    },
                    BracketMove::Close(index) => {
                        return Ok(index);
                    },
                    BracketMove::Fail(fault) => {
                        return Err(fault.into_error(count, debug_string(lexer_vec)));
                    },
                }
            },
        }
    }
}

} // verus!
