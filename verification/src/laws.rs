//! Laws of the lexer, each proved from what the functions promise.

use crate::error::{LexResult, LexerErrorView};
use crate::bracket::result_view;
use crate::lexer::compile;
use crate::lexer_constants::{
    LEX_ESCAPE, LEX_GENERIC_END, LEX_GENERIC_START, LEX_IDENTIFIER, LEX_ROUGE_WIDESPACE,
};
use crate::macro_format::MacroFormat;
use crate::scan::{
    compile_spec, lemma_bracket_rest, scan_bracket, scan_path, scanned_index, scanned_slicers,
    scanned_steps, snapshot, BracketState, BracketStep, PathState,
};
use crate::values::{operators_view, LexOperator, LexOperatorView, LexicalOperations};
use vstd::prelude::*;

verus! {

/// Compiling is a function of the text: whatever two runs on the same text return,
/// the two results denote the same.
pub proof fn law_compile_twice(
    source: &str,
    first: LexResult<LexicalOperations>,
    second: LexResult<LexicalOperations>,
)
    requires
        call_ensures(compile, (source,), first),
        call_ensures(compile, (source,), second),
    ensures
        result_view(first) == result_view(second),
{
}

/// Every value that can be rendered is rendered: rendering asks nothing of it.
pub proof fn law_render_total<T: MacroFormat>(value: &T)
    ensures
        call_requires(T::macro_fmt, (value,)),
{
}

/// Rendering is a function of the value: whatever two runs on the same value return,
/// the two texts are the same.
pub proof fn law_render_twice<T: MacroFormat>(value: &T, first: String, second: String)
    requires
        call_ensures(T::macro_fmt, (value,), first),
        call_ensures(T::macro_fmt, (value,), second),
    ensures
        first@ == second@,
{
}

/// Rendering looks only at what the steps are: two lists that denote the same steps
/// are written alike.
pub proof fn law_render_equal_steps(
    first: &Vec<LexOperator>,
    second: &Vec<LexOperator>,
    first_text: String,
    second_text: String,
)
    requires
        operators_view(first@) == operators_view(second@),
        call_ensures(<Vec<LexOperator> as MacroFormat>::macro_fmt, (first,), first_text),
        call_ensures(<Vec<LexOperator> as MacroFormat>::macro_fmt, (second,), second_text),
    ensures
        first_text@ == second_text@,
{
}

/// The count of consumed characters that an error reports, where it reports one.
pub open spec fn error_pointer(error: LexerErrorView) -> Option<nat> {
    match error {
        LexerErrorView::EndOfQuery { char_pointer, .. } => Some(char_pointer),
        LexerErrorView::UnexpectedCharacter { char_pointer, .. } => Some(char_pointer),
        LexerErrorView::FailedToParseInt(_) => None,
    }
}

/// The snapshot of the unread text that an error carries, where it carries one.
pub open spec fn error_snapshot(error: LexerErrorView) -> Option<Seq<char>> {
    match error {
        LexerErrorView::EndOfQuery { lex, .. } => Some(lex),
        LexerErrorView::UnexpectedCharacter { lex, .. } => Some(lex),
        LexerErrorView::FailedToParseInt(_) => None,
    }
}

/// The bracket scanner returns only indexes of its own making: from a state whose
/// selectors and pending bound are of its making, an index that it returns is the
/// wildcard or holds one or more such selectors.
pub proof fn law_bracket_result(text: Seq<char>, state: BracketState, count: nat)
    requires
        scanned_slicers(state.slicers),
        state.pending matches Some(from) ==> from <= usize::MAX,
    ensures
        scan_bracket(text, state, count).result matches Ok(index) ==> scanned_index(index),
    decreases text.len(),
{
    if text.len() > 0 {
        match state.step(text.first()) {
            BracketStep::Continue(next) => {
                law_bracket_result(text.drop_first(), next, count + 1);
            },
            _ => {},
        }
    }
}

/// The bracket scanner stops behind the first closing bracket that it reads as one:
/// where it returns an index, the last character that it consumed is a closing
/// bracket. Where the text ends before, nothing is left unread.
pub proof fn law_bracket_stops(text: Seq<char>, state: BracketState, count: nat)
    ensures
        ({
            let out = scan_bracket(text, state, count);
            let consumed = text.len() - out.rest.len();
            &&& 0 <= consumed <= text.len()
            &&& out.rest == text.skip(consumed)
            &&& out.result is Ok ==> consumed > 0 && text[consumed - 1] == LEX_GENERIC_END
            &&& out.result matches Err(LexerErrorView::EndOfQuery { .. }) ==> out.rest.len() == 0
        }),
    decreases text.len(),
{
    lemma_bracket_rest(text, state, count);
    if text.len() > 0 {
        match state.step(text.first()) {
            BracketStep::Continue(next) => {
                law_bracket_stops(text.drop_first(), next, count + 1);
            },
            _ => {},
        }
    }
}

/// An error of the bracket scanner reports how far the scan came: the count that
/// it started from plus the characters that it consumed, and the snapshot of what
/// it left unread.
pub proof fn law_bracket_pointer(text: Seq<char>, state: BracketState, count: nat)
    ensures
        ({
            let out = scan_bracket(text, state, count);
            out.result matches Err(error) ==> {
                &&& error_pointer(error) matches Some(pointer) ==> pointer == count + text.len()
                    - out.rest.len()
                &&& error_snapshot(error) matches Some(lex) ==> lex == snapshot(out.rest)
            }
        }),
    decreases text.len(),
{
    if text.len() > 0 {
        match state.step(text.first()) {
            BracketStep::Continue(next) => {
                law_bracket_pointer(text.drop_first(), next, count + 1);
            },
            _ => {},
        }
    } else {
        assert(text =~= Seq::<char>::empty());
    }
}

/// The top-level scanner adds only steps of its own making, and succeeds only at
/// the end of the text: from steps of its making, the steps at the end are of its
/// making; a result that is no error holds exactly those steps, and then nothing is
/// left unread.
pub proof fn law_path_result(text: Seq<char>, state: PathState)
    requires
        scanned_steps(state.operators),
    ensures
        ({
            let out = scan_path(text, state);
            &&& scanned_steps(out.operators)
            &&& out.result matches Ok(steps) ==> steps == out.operators && out.rest.len() == 0
        }),
    decreases text.len(),
{
    if text.len() > 0 {
        let c = text.first();
        let rest = text.drop_first();
        if state.escaped {
            law_path_result(rest, state.buffered(c));
        } else if c == LEX_ESCAPE {
            law_path_result(rest, state.escaping());
        } else if c == LEX_IDENTIFIER {
            law_path_result(rest, state.separated());
        } else if c == LEX_GENERIC_START {
            let inner = scan_bracket(rest, BracketState::start(), 0);
            lemma_bracket_rest(rest, BracketState::start(), 0);
            law_bracket_result(rest, BracketState::start(), 0);
            match inner.result {
                Ok(index) => {
                    law_path_result(inner.rest, state.indexed(index));
                },
                Err(_) => {},
            }
        } else if c == LEX_ROUGE_WIDESPACE {
            law_path_result(rest, state);
        } else {
            law_path_result(rest, state.buffered(c));
        }
    }
}

/// An error of the top-level scanner reports what the failing scan of a bracketed
/// index consumed: no more than the text holds behind the opening bracket, so less
/// than the length of the text, whatever stands before that bracket.
pub proof fn law_path_pointer(text: Seq<char>, state: PathState)
    ensures
        ({
            let out = scan_path(text, state);
            out.result matches Err(error) ==> (error_pointer(error) matches Some(pointer)
                ==> pointer < text.len())
        }),
    decreases text.len(),
{
    if text.len() > 0 {
        let c = text.first();
        let rest = text.drop_first();
        if state.escaped {
            law_path_pointer(rest, state.buffered(c));
        } else if c == LEX_ESCAPE {
            law_path_pointer(rest, state.escaping());
        } else if c == LEX_IDENTIFIER {
            law_path_pointer(rest, state.separated());
        } else if c == LEX_GENERIC_START {
            let inner = scan_bracket(rest, BracketState::start(), 0);
            lemma_bracket_rest(rest, BracketState::start(), 0);
            law_bracket_pointer(rest, BracketState::start(), 0);
            match inner.result {
                Ok(index) => {
                    law_path_pointer(inner.rest, state.indexed(index));
                },
                Err(_) => {},
            }
        } else if c == LEX_ROUGE_WIDESPACE {
            law_path_pointer(rest, state);
        } else {
            law_path_pointer(rest, state.buffered(c));
        }
    }
}

/// An error of the top-level scanner is that of the first scan of a bracketed index
/// that fails, counted from the bracket: where the text opens a bracket that is not
/// escaped and the scan behind it fails, the run ends with that scan's error, the
/// buffered segment has become a step, and what that scan left is what is left.
pub proof fn law_path_fails_with_the_bracket(text: Seq<char>, state: PathState)
    requires
        text.len() > 0,
        !state.escaped,
        text.first() == LEX_GENERIC_START,
        scan_bracket(text.drop_first(), BracketState::start(), 0).result is Err,
    ensures
        ({
            let inner = scan_bracket(text.drop_first(), BracketState::start(), 0);
            let out = scan_path(text, state);
            &&& out.result == Err::<Seq<LexOperatorView>, LexerErrorView>(inner.result->Err_0)
            &&& out.operators == state.flushed()
            &&& out.rest == inner.rest
        }),
{
}

/// Only a bracketed index can fail: a text without an opening bracket compiles.
pub proof fn law_plain_text_compiles(text: Seq<char>, state: PathState)
    requires
        forall|i: int| 0 <= i < text.len() ==> text[i] != LEX_GENERIC_START,
    ensures
        scan_path(text, state).result is Ok,
    decreases text.len(),
{
    if text.len() > 0 {
        let c = text.first();
        let rest = text.drop_first();
        assert(forall|i: int| 0 <= i < rest.len() ==> rest[i] == text[i + 1]);
        if state.escaped {
            law_plain_text_compiles(rest, state.buffered(c));
        } else if c == LEX_ESCAPE {
            law_plain_text_compiles(rest, state.escaping());
        } else if c == LEX_IDENTIFIER {
            law_plain_text_compiles(rest, state.separated());
        } else if c == LEX_ROUGE_WIDESPACE {
            law_plain_text_compiles(rest, state);
        } else {
            law_plain_text_compiles(rest, state.buffered(c));
        }
    }
}

/// What compiles holds only steps of the scanner's making: no segment without a
/// name, no combinator stage, no index with an empty list of selectors.
pub proof fn law_compiled_steps(source: Seq<char>)
    ensures
        compile_spec(source) matches Ok(steps) ==> scanned_steps(steps),
{
    law_path_result(source, PathState::start());
}

} // verus!
