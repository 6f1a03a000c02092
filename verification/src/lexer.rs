//! The top-level scanner: from the characters of a path expression to its steps.

use crate::bracket::{generic_object_index, result_view};
use crate::cursor::{char_stack, lemma_unread_twice, take_next, unread};
use crate::error::{LexResult, LexerErrorView};
use crate::laws::law_compiled_steps;
use crate::lexer_constants::{
    LEX_ESCAPE, LEX_GENERIC_START, LEX_IDENTIFIER, LEX_ROUGE_WIDESPACE,
};
use crate::scan::{
    compile_spec, flush, lemma_bracket_rest, scan_path, scanned_steps, BracketState, PathState,
};
use crate::text::{error_debug_string, error_debug_text};
use crate::values::{
    clone_operators, operators_view, slicers_view, LexOperator, LexOperatorView,
    LexicalOperations, Slicer, SlicerView,
};
use vstd::prelude::*;
use vstd::std_specs::convert::TryIntoSpecImpl;

verus! {

/// What a result that holds a list of steps denotes.
pub open spec fn operators_result_view(r: LexResult<Vec<LexOperator>>) -> Result<
    Seq<LexOperatorView>,
    LexerErrorView,
> {
    match r {
        Ok(list) => Ok(operators_view(list@)),
        Err(error) => Err(error@),
    }
}

/// Puts the segment named `collect` behind the steps, unless the name is empty.
fn flush_identifier(operator: &mut Vec<LexOperator>, collect: String)
    ensures
        operators_view(final(operator)@) == flush(operators_view(old(operator)@), collect@),
{
    if !collect.as_str().is_empty() {
        let ghost before = operator@;
        let step = LexOperator::Identifier(collect);
        operator.push(step);
        assert(operators_view(before.push(step)) =~= operators_view(before).push(step@));
    }
}

/// Reads a path expression to its end.
///
/// `lexer_vec` holds the unread characters as a stack, the next one on top.
/// `operator` holds the steps read so far and receives each further step, `collect`
/// and `escape` are the state to start from, and `char_pointer` is the number of
/// characters consumed before, from which the scanner counts on. No error reports
/// that count: only a bracketed index fails, and its error reports what the scan of
/// that index consumed. The result is a copy of the steps; on an error `operator`
/// keeps the steps that were complete, and the stack what was not consumed.
#[verifier::loop_isolation(false)]
pub fn generic_compiler(
    lexer_vec: &mut Vec<char>,
    operator: &mut Vec<LexOperator>,
    collect: String,
    escape: bool,
    char_pointer: usize,
) -> (r: LexResult<Vec<LexOperator>>)
    requires
        char_pointer + old(lexer_vec).len() <= usize::MAX,
    ensures
        ({
            let out = scan_path(
                unread(old(lexer_vec)@),
                PathState {
                    operators: operators_view(old(operator)@),
                    buffer: collect@,
                    escaped: escape,
                },
            );
            &&& operators_result_view(r) == out.result
            &&& operators_view(final(operator)@) == out.operators
            &&& unread(final(lexer_vec)@) == out.rest
        }),
{
    let ghost start = PathState {
        operators: operators_view(operator@),
        buffer: collect@,
        escaped: escape,
    };
    let mut collect = collect;
    let mut escape = escape;
    let mut count = char_pointer;
    loop
        invariant
            count + lexer_vec.len() <= usize::MAX,
            scan_path(
                unread(lexer_vec@),
                PathState {
                    operators: operators_view(operator@),
                    buffer: collect@,
                    escaped: escape,
                },
            ) == scan_path(unread(old(lexer_vec)@), start),
        decreases lexer_vec@.len(),
    {
        match take_next(lexer_vec, &mut count) {
            None => {
                return Ok(clone_operators(operator));
            },
            Some(c) => {
                if escape {
                    collect.push(c);
                    escape = false;
                } else if c == LEX_ESCAPE {
                    escape = true;
                } else if c == LEX_IDENTIFIER {
                    flush_identifier(operator, collect);
                    collect = String::new();
                } else if c == LEX_GENERIC_START {
                    flush_identifier(operator, collect);
                    collect = String::new();
                    let ghost rest = lexer_vec@;
                    proof {
                        lemma_bracket_rest(unread(rest), BracketState::start(), 0);
                        lemma_unread_twice(rest);
                        assert(slicers_view(Seq::<Slicer>::empty()) =~= Seq::<SlicerView>::empty());
                    }
                    match generic_object_index(
                        lexer_vec,
                        String::new(),
                        Vec::new(),
                        None,
                        false,
                        0,
                    ) {
                        Ok(index) => {
                            let ghost before = operator@;
                            let step = LexOperator::Generic(index);
                            operator.push(step);
                            assert(operators_view(before.push(step)) =~= operators_view(
                                before,
                            ).push(step@));
                        },
                        Err(error) => {
                            return Err(error);
                        },
                    }
                } else if c != LEX_ROUGE_WIDESPACE {
                    collect.push(c);
                }
            },
        }
    }
}

/// Compiles a path expression to its steps.
///
/// The steps are those of the top-level scanner run on the whole text from its
/// start state. None of them is a segment without a name or a combinator stage, and
/// no index among them holds an empty list of selectors.
pub fn compile(s: &str) -> (r: LexResult<LexicalOperations>)
    ensures
        result_view(r) == compile_spec(s@),
        r matches Ok(steps) ==> scanned_steps(steps@),
{
    proof {
        law_compiled_steps(s@);
    }
    let mut lexer_vec = char_stack(s);
    let mut operator: Vec<LexOperator> = Vec::new();
    assert(operators_view(operator@) =~= Seq::empty());
    match generic_compiler(&mut lexer_vec, &mut operator, String::new(), false, 0) {
        Ok(list) => Ok(LexicalOperations::from(list)),
        Err(error) => Err(error),
    }
}

/// What converting a text into its steps gives: the steps, or the `{:?}` text of the
/// error.
pub open spec fn convert_spec(source: Seq<char>) -> Result<Seq<LexOperatorView>, Seq<char>> {
    match compile_spec(source) {
        Ok(steps) => Ok(steps),
        Err(error) => Err(error_debug_text(error)),
    }
}

/// What a result whose error is a text denotes.
pub open spec fn text_result_view(r: Result<LexicalOperations, String>) -> Result<
    Seq<LexOperatorView>,
    Seq<char>,
> {
    match r {
        Ok(steps) => Ok(steps@),
        Err(text) => Err(text@),
    }
}

impl TryInto<LexicalOperations> for &str {
    type Error = String;

    fn try_into(self) -> (r: Result<LexicalOperations, String>)
        ensures
            text_result_view(r) == convert_spec(self@),
    {
        match compile(self) {
            Ok(steps) => Ok(steps),
            Err(error) => Err(error_debug_string(&error)),
        }
    }
}

impl TryIntoSpecImpl<LexicalOperations> for &str {
    open spec fn obeys_try_into_spec() -> bool {
        false
    }

    open spec fn try_into_spec(self) -> Result<LexicalOperations, String> {
        arbitrary()
    }
}

} // verus!
