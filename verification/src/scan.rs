//! What the two scanners compute, stated on the text that is still to be read.

use crate::error::LexerErrorView;
use crate::values::{GenericObjectIndexView, LexOperatorView, SlicerView};
use crate::lexer_constants::{
    LEX_ESCAPE, LEX_GENERIC_END, LEX_GENERIC_SEPARATOR, LEX_GENERIC_SLICE, LEX_GENERIC_START,
    LEX_IDENTIFIER, LEX_ROUGE_WIDESPACE,
};
use crate::number::{parse_result, parse_usize_spec};
use crate::text::debug_text;
use std::num::ParseIntError;
use vstd::prelude::*;

verus! {

/// What the bracket scanner carries from one character to the next.
pub struct BracketState {
    /// The text of the selector that is being read.
    pub buffer: Seq<char>,
    /// The selectors that are complete.
    pub slicers: Seq<SlicerView>,
    /// The lower bound of a range whose upper bound is being read.
    pub pending: Option<nat>,
    /// Whether the next character is taken literally.
    pub escaped: bool,
}

/// Why the bracket scanner fails.
pub enum BracketFaultView {
    /// The text ended before the closing bracket.
    Unclosed,
    /// A separator or range marker with nothing before it.
    NothingBefore,
    /// A range marker behind text that is no number.
    StartNotNumber,
    /// A range whose upper bound is no number.
    EndNotNumber(ParseIntError),
}

/// What one character does to the bracket scanner.
pub enum BracketStep {
    /// Scanning goes on in the given state.
    Continue(BracketState),
    /// The closing bracket was read: the index is complete.
    Close(GenericObjectIndexView),
    /// The character cannot stand here.
    Fail(BracketFaultView),
}

/// The selector that the buffered text stands for, where `parsed` is what reading it
/// as a number gives: with a lower bound pending the upper bound of that range, which
/// must be a number; else a position where the text is a number, and a bare key where
/// it is not.
pub open spec fn resolve(
    buffer: Seq<char>,
    pending: Option<nat>,
    parsed: Result<nat, ParseIntError>,
) -> Result<SlicerView, ParseIntError> {
    match (pending, parsed) {
        (Some(from), Ok(to)) => Ok(SlicerView::Slice(from, to)),
        (Some(_), Err(cause)) => Err(cause),
        (None, Ok(n)) => Ok(SlicerView::Index(n)),
        (None, Err(_)) => Ok(SlicerView::Ident(buffer)),
    }
}

impl BracketState {
    /// The state just behind the opening bracket.
    pub open spec fn start() -> BracketState {
        BracketState { buffer: Seq::empty(), slicers: Seq::empty(), pending: None, escaped: false }
    }

    /// Whether nothing has been read that could become a selector.
    pub open spec fn is_blank(self) -> bool {
        self.buffer.len() == 0 && self.slicers.len() == 0
    }

    /// The state after `c` was added to the buffer.
    pub open spec fn buffered(self, c: char) -> BracketState {
        BracketState { buffer: self.buffer.push(c), escaped: false, ..self }
    }

    /// The state in which the next character is taken literally.
    pub open spec fn escaping(self) -> BracketState {
        BracketState { escaped: true, ..self }
    }

    /// What the closing bracket does, where `parsed` is what reading the buffer as a
    /// number gives. With nothing read the index is the wildcard. An empty buffer
    /// adds nothing to the selectors, and a pending lower bound is then dropped.
    pub open spec fn close(self, parsed: Result<nat, ParseIntError>) -> BracketStep {
        if self.is_blank() {
            BracketStep::Close(GenericObjectIndexView::Wildcard)
        } else if self.buffer.len() == 0 {
            BracketStep::Close(GenericObjectIndexView::Slice(self.slicers))
        } else {
            match resolve(self.buffer, self.pending, parsed) {
                Ok(slicer) => BracketStep::Close(
                    GenericObjectIndexView::Slice(self.slicers.push(slicer)),
                ),
                Err(cause) => BracketStep::Fail(BracketFaultView::EndNotNumber(cause)),
            }
        }
    }

    /// What a separator does, where `parsed` is what reading the buffer as a number
    /// gives. An empty buffer behind complete selectors stands for an empty key.
    pub open spec fn separate(self, parsed: Result<nat, ParseIntError>) -> BracketStep {
        if self.is_blank() {
            BracketStep::Fail(BracketFaultView::NothingBefore)
        } else {
            match resolve(self.buffer, self.pending, parsed) {
                Ok(slicer) => BracketStep::Continue(
                    BracketState {
                        buffer: Seq::empty(),
                        slicers: self.slicers.push(slicer),
                        pending: None,
                        escaped: false,
                    },
                ),
                Err(cause) => BracketStep::Fail(BracketFaultView::EndNotNumber(cause)),
            }
        }
    }

    /// What a range marker does, where `parsed` is what reading the buffer as a number
    /// gives. The number becomes the pending lower bound, in place of an earlier one.
    pub open spec fn range(self, parsed: Result<nat, ParseIntError>) -> BracketStep {
        if self.is_blank() {
            BracketStep::Fail(BracketFaultView::NothingBefore)
        } else {
            match parsed {
                Ok(from) => BracketStep::Continue(
                    BracketState {
                        buffer: Seq::empty(),
                        pending: Some(from),
                        escaped: false,
                        ..self
                    },
                ),
                Err(_) => BracketStep::Fail(BracketFaultView::StartNotNumber),
            }
        }
    }

    /// What the character `c` does. An escaped character goes to the buffer whatever
    /// it is; a space that is not escaped is dropped.
    pub open spec fn step(self, c: char) -> BracketStep {
        if self.escaped {
            BracketStep::Continue(self.buffered(c))
        } else if c == LEX_ESCAPE {
            BracketStep::Continue(self.escaping())
        } else if c == LEX_GENERIC_END {
            self.close(parse_result(self.buffer))
        } else if c == LEX_GENERIC_SEPARATOR {
            self.separate(parse_result(self.buffer))
        } else if c == LEX_GENERIC_SLICE {
            self.range(parse_result(self.buffer))
        } else if c == LEX_ROUGE_WIDESPACE {
            BracketStep::Continue(self)
        } else {
            BracketStep::Continue(self.buffered(c))
        }
    }
}

/// The snapshot of the unread text that an error carries: the characters are listed
/// last first, as they lie on the scanner's stack.
pub open spec fn snapshot(rest: Seq<char>) -> Seq<char> {
    debug_text(rest.reverse())
}

/// The error for a fault met when `count` characters were consumed, with `lex` the
/// snapshot of the unread text. A range marker with nothing before it is reported as
/// a separator is.
pub open spec fn fault_error(fault: BracketFaultView, count: nat, lex: Seq<char>) -> LexerErrorView {
    match fault {
        BracketFaultView::Unclosed => LexerErrorView::EndOfQuery {
            expected: seq![LEX_GENERIC_END],
            char_pointer: count,
            lex,
        },
        BracketFaultView::NothingBefore => LexerErrorView::UnexpectedCharacter {
            expected: "Integer/String"@,
            found: seq![LEX_GENERIC_SEPARATOR],
            char_pointer: count,
            lex,
        },
        BracketFaultView::StartNotNumber => LexerErrorView::UnexpectedCharacter {
            expected: "Integer"@,
            found: "String"@,
            char_pointer: count,
            lex,
        },
        BracketFaultView::EndNotNumber(cause) => LexerErrorView::FailedToParseInt(cause),
    }
}

/// How a run of the bracket scanner ends.
pub struct BracketOutcome {
    /// The index, or the error.
    pub result: Result<GenericObjectIndexView, LexerErrorView>,
    /// The text that was not consumed.
    pub rest: Seq<char>,
}

/// The run of the bracket scanner on `text`, from `state`, with `count` characters
/// consumed before. The run consumes the text up to the first character that closes
/// the index or cannot stand where it does; an error reports the count reached with
/// that character.
pub open spec fn scan_bracket(text: Seq<char>, state: BracketState, count: nat) -> BracketOutcome
    decreases text.len(),
{
    if text.len() == 0 {
        BracketOutcome {
            result: Err(fault_error(BracketFaultView::Unclosed, count, snapshot(text))),
            rest: text,
        }
    } else {
        let rest = text.drop_first();
        match state.step(text.first()) {
            BracketStep::Continue(next) => scan_bracket(rest, next, count + 1),
            BracketStep::Close(index) => BracketOutcome { result: Ok(index), rest },
            BracketStep::Fail(fault) => BracketOutcome {
                result: Err(fault_error(fault, count + 1, snapshot(rest))),
                rest,
            },
        }
    }
}

/// Whatever the bracket scanner leaves unread is a tail of its text, and a proper
/// one where it returns an index.
pub proof fn lemma_bracket_rest(text: Seq<char>, state: BracketState, count: nat)
    ensures
        ({
            let out = scan_bracket(text, state, count);
            &&& out.rest.len() <= text.len()
            &&& out.rest == text.skip(text.len() - out.rest.len())
            &&& out.result is Ok ==> out.rest.len() < text.len()
        }),
    decreases text.len(),
{
    if text.len() > 0 {
        let rest = text.drop_first();
        match state.step(text.first()) {
            BracketStep::Continue(next) => {
                lemma_bracket_rest(rest, next, count + 1);
                let out = scan_bracket(rest, next, count + 1);
                assert(rest.skip(rest.len() - out.rest.len()) =~= text.skip(
                    text.len() - out.rest.len(),
                ));
            },
            _ => {
                assert(rest =~= text.skip(1));
            },
        }
    } else {
        assert(text =~= text.skip(0));
    }
}

/// The steps with the segment named `buffer` behind them, unless the name is empty.
pub open spec fn flush(operators: Seq<LexOperatorView>, buffer: Seq<char>) -> Seq<
    LexOperatorView,
> {
    if buffer.len() == 0 {
        operators
    } else {
        operators.push(LexOperatorView::Identifier(buffer))
    }
}

/// What the top-level scanner carries from one character to the next.
pub struct PathState {
    /// The steps that are complete.
    pub operators: Seq<LexOperatorView>,
    /// The text of the segment that is being read.
    pub buffer: Seq<char>,
    /// Whether the next character is taken literally.
    pub escaped: bool,
}

impl PathState {
    /// The state at the start of a path expression.
    pub open spec fn start() -> PathState {
        PathState { operators: Seq::empty(), buffer: Seq::empty(), escaped: false }
    }

    /// The steps once the buffered segment, if there is one, has become a step.
    pub open spec fn flushed(self) -> Seq<LexOperatorView> {
        flush(self.operators, self.buffer)
    }

    /// The state after `c` was added to the buffer.
    pub open spec fn buffered(self, c: char) -> PathState {
        PathState { buffer: self.buffer.push(c), escaped: false, ..self }
    }

    /// The state in which the next character is taken literally.
    pub open spec fn escaping(self) -> PathState {
        PathState { escaped: true, ..self }
    }

    /// The state behind a segment separator: the buffered segment has become a step.
    pub open spec fn separated(self) -> PathState {
        PathState { operators: self.flushed(), buffer: Seq::empty(), escaped: false }
    }

    /// The state behind a bracketed index: the buffered segment and the index have
    /// become steps.
    pub open spec fn indexed(self, index: GenericObjectIndexView) -> PathState {
        PathState {
            operators: self.flushed().push(LexOperatorView::Generic(index)),
            buffer: Seq::empty(),
            escaped: false,
        }
    }
}

/// How a run of the top-level scanner ends.
pub struct PathOutcome {
    /// The steps, or the error.
    pub result: Result<Seq<LexOperatorView>, LexerErrorView>,
    /// The steps that were complete when the run ended, whichever way it ended.
    pub operators: Seq<LexOperatorView>,
    /// The text that was not consumed.
    pub rest: Seq<char>,
}

/// The run of the top-level scanner on `text`, from `state`. A bracketed index is
/// read by a run of the bracket scanner that counts from zero, so that an error
/// reports what the failing run itself consumed, not a place in the whole text. Text
/// that is still buffered when the text ends is dropped.
pub open spec fn scan_path(text: Seq<char>, state: PathState) -> PathOutcome
    decreases text.len(),
{
    if text.len() == 0 {
        PathOutcome { result: Ok(state.operators), operators: state.operators, rest: text }
    } else {
        let c = text.first();
        let rest = text.drop_first();
        if state.escaped {
            scan_path(rest, state.buffered(c))
        } else if c == LEX_ESCAPE {
            scan_path(rest, state.escaping())
        } else if c == LEX_IDENTIFIER {
            scan_path(rest, state.separated())
        } else if c == LEX_GENERIC_START {
            let inner = scan_bracket(rest, BracketState::start(), 0);
            match inner.result {
                Ok(index) => {
                    proof {
                        lemma_bracket_rest(rest, BracketState::start(), 0);
                    }
                    scan_path(inner.rest, state.indexed(index))
                },
                Err(error) => PathOutcome {
                    result: Err(error),
                    operators: state.flushed(),
                    rest: inner.rest,
                },
            }
        } else if c == LEX_ROUGE_WIDESPACE {
            scan_path(rest, state)
        } else {
            scan_path(rest, state.buffered(c))
        }
    }
}

/// What compiling `source` gives.
pub open spec fn compile_spec(source: Seq<char>) -> Result<Seq<LexOperatorView>, LexerErrorView> {
    scan_path(source, PathState::start()).result
}

/// Whether a selector is one that the bracket scanner builds: its positions fit a
/// `usize`, and its key is no number.
pub open spec fn scanned_slicer(slicer: SlicerView) -> bool {
    match slicer {
        SlicerView::Index(n) => n <= usize::MAX,
        SlicerView::Slice(from, to) => from <= usize::MAX && to <= usize::MAX,
        SlicerView::Ident(key) => parse_usize_spec(key) is None,
    }
}

/// Whether every selector of the list is one that the bracket scanner builds.
pub open spec fn scanned_slicers(list: Seq<SlicerView>) -> bool {
    forall|i: int| 0 <= i < list.len() ==> scanned_slicer(#[trigger] list[i])
}

/// Whether an index is one that the bracket scanner builds: the wildcard, or one or
/// more selectors.
pub open spec fn scanned_index(index: GenericObjectIndexView) -> bool {
    match index {
        GenericObjectIndexView::Wildcard => true,
        GenericObjectIndexView::Slice(list) => list.len() > 0 && scanned_slicers(list),
    }
}

/// Whether a step is one that the top-level scanner builds: a segment with a name
/// that is not empty, or a bracketed index; never a combinator stage.
pub open spec fn scanned_step(step: LexOperatorView) -> bool {
    match step {
        LexOperatorView::Identifier(name) => name.len() > 0,
        LexOperatorView::Pipe(_) => false,
        LexOperatorView::Generic(index) => scanned_index(index),
    }
}

/// Whether every step of the list is one that the top-level scanner builds.
pub open spec fn scanned_steps(list: Seq<LexOperatorView>) -> bool {
    forall|i: int| 0 <= i < list.len() ==> scanned_step(#[trigger] list[i])
}

} // verus!
