//! Rendering of the lexer's values as the constructor expressions that build them.

use crate::number::{decimal_text, push_decimal};
use crate::values::{
    lemma_pipe_view, operators_view, slicers_view, GenericObjectIndex, GenericObjectIndexView,
    LexOperator, LexOperatorView, Slicer, SlicerView,
};
use vstd::prelude::*;
use vstd::string::StringExecFns;

verus! {

/// The constructor expression of a selector. A key is written between quotes as it
/// is, without escapes.
pub open spec fn slicer_text(slicer: SlicerView) -> Seq<char> {
    match slicer {
        SlicerView::Index(n) => "::data_query_lexical::Slicer::Index("@ + decimal_text(n) + ")"@,
        SlicerView::Slice(from, to) => "::data_query_lexical::Slicer::Slice("@ + decimal_text(from)
            + ","@ + decimal_text(to) + ")"@,
        SlicerView::Ident(key) => "::data_query_lexical::Slicer::Ident(\""@ + key
            + "\".into())"@,
    }
}

/// The constructor expressions of the selectors, with a comma between neighbours.
pub open spec fn slicers_joined(list: Seq<SlicerView>) -> Seq<char>
    decreases list.len(),
{
    if list.len() == 0 {
        Seq::empty()
    } else if list.len() == 1 {
        slicer_text(list[0])
    } else {
        slicers_joined(list.drop_last()) + ","@ + slicer_text(list.last())
    }
}

/// The constructor expression of a bracketed index.
pub open spec fn index_text(index: GenericObjectIndexView) -> Seq<char> {
    match index {
        GenericObjectIndexView::Wildcard => "::data_query_lexical::GenericObjectIndex::Wildcard"@,
        GenericObjectIndexView::Slice(list) =>
            "::data_query_lexical::GenericObjectIndex::Slice(::std::vec::Vec::from(["@
            + slicers_joined(list) + "]))"@,
    }
}

/// The constructor expression of a step. A combinator stage is written as the list
/// of its steps.
pub open spec fn operator_text(operator: LexOperatorView) -> Seq<char>
    decreases operator, 0nat,
{
    match operator {
        LexOperatorView::Identifier(name) => "::data_query_lexical::LexOperator::Identifier(\""@
            + name + "\".into())"@,
        LexOperatorView::Pipe(list) => operators_text(list),
        LexOperatorView::Generic(index) => "::data_query_lexical::LexOperator::Generic("@
            + index_text(index) + ")"@,
    }
}

/// The constructor expressions of the steps, with a comma between neighbours.
pub open spec fn operators_joined(list: Seq<LexOperatorView>) -> Seq<char>
    decreases list, 0nat,
{
    if list.len() == 0 {
        Seq::empty()
    } else if list.len() == 1 {
        operator_text(list[0])
    } else {
        operators_joined(list.drop_last()) + ","@ + operator_text(list.last())
    }
}

/// The constructor expression of a list of steps.
pub open spec fn operators_text(list: Seq<LexOperatorView>) -> Seq<char>
    decreases list, 1nat,
{
    "::std::vec::Vec::from(["@ + operators_joined(list) + "])"@
}

/// Values that can be written as the expression that constructs them.
pub trait MacroFormat {
    /// The constructor expression of the value.
    spec fn macro_text(&self) -> Seq<char>;

    /// Writes the constructor expression of the value.
    fn macro_fmt(&self) -> (text: String)
        ensures
            text@ == self.macro_text(),
    ;
}

impl MacroFormat for Slicer {
    open spec fn macro_text(&self) -> Seq<char> {
        slicer_text(self@)
    }

    fn macro_fmt(&self) -> (text: String) {
        match self {
            Slicer::Index(n) => {
                let mut text = "::data_query_lexical::Slicer::Index(".to_string();
                push_decimal(&mut text, *n);
                text.append(")");
                text
            },
            Slicer::Slice(from, to) => {
                let mut text = "::data_query_lexical::Slicer::Slice(".to_string();
                push_decimal(&mut text, *from);
                text.append(",");
                push_decimal(&mut text, *to);
                text.append(")");
                text
            },
            Slicer::Ident(key) => {
                let mut text = "::data_query_lexical::Slicer::Ident(\"".to_string();
                text.append(key.as_str());
                text.append("\".into())");
                text
            },
        }
    }
}

impl MacroFormat for GenericObjectIndex {
    open spec fn macro_text(&self) -> Seq<char> {
        index_text(self@)
    }

    fn macro_fmt(&self) -> (text: String) {
        match self {
            GenericObjectIndex::Wildcard => {
                "::data_query_lexical::GenericObjectIndex::Wildcard".to_string()
            },
            GenericObjectIndex::Slice(list) => {
                let mut text =
                    "::data_query_lexical::GenericObjectIndex::Slice(::std::vec::Vec::from([".to_string();
                let ghost head = text@;
                let mut i: usize = 0;
                while i < list.len()
                    invariant
                        i <= list.len(),
                        text@ == head + slicers_joined(slicers_view(list@).take(i as int)),
                    decreases list.len() - i,
                {
                    let ghost done = slicers_view(list@).take(i as int);
                    let ghost next = slicers_view(list@).take(i + 1);
                    assert(next.drop_last() =~= done);
                    assert(next.last() == list@[i as int]@);
                    if i > 0 {
                        text.append(",");
                    }
                    let item = list[i].macro_fmt();
                    text.append(item.as_str());
                    assert(text@ =~= head + slicers_joined(next));
                    i += 1;
                }
                assert(slicers_view(list@).take(i as int) =~= slicers_view(list@));
                text.append("]))");
                text
            },
        }
    }
}

impl MacroFormat for Vec<LexOperator> {
    open spec fn macro_text(&self) -> Seq<char> {
        operators_text(operators_view(self@))
    }

    fn macro_fmt(&self) -> (text: String)
        decreases self, 0nat,
    {
        let mut text = "::std::vec::Vec::from([".to_string();
        let ghost head = text@;
        let mut i: usize = 0;
        while i < self.len()
            invariant
                i <= self.len(),
                text@ == head + operators_joined(operators_view(self@).take(i as int)),
            decreases self.len() - i,
        {
            let ghost done = operators_view(self@).take(i as int);
            let ghost next = operators_view(self@).take(i + 1);
            assert(next.drop_last() =~= done);
            assert(next.last() == self@[i as int]@);
            if i > 0 {
                text.append(",");
            }
            let item = self[i].macro_fmt();
            text.append(item.as_str());
            assert(text@ =~= head + operators_joined(next));
            i += 1;
        }
        assert(operators_view(self@).take(i as int) =~= operators_view(self@));
        text.append("])");
        text
    }
}

impl MacroFormat for LexOperator {
    open spec fn macro_text(&self) -> Seq<char> {
        operator_text(self@)
    }

    fn macro_fmt(&self) -> (text: String)
        decreases self, 1nat,
    {
        match self {
            LexOperator::Identifier(name) => {
                let mut text = "::data_query_lexical::LexOperator::Identifier(\"".to_string();
                text.append(name.as_str());
                text.append("\".into())");
                text
            },
            LexOperator::Pipe(list) => {
                proof {
                    lemma_pipe_view(*list);
                }
                list.macro_fmt()
            },
            LexOperator::Generic(index) => {
                let mut text = "::data_query_lexical::LexOperator::Generic(".to_string();
                let inner = index.macro_fmt();
                text.append(inner.as_str());
                text.append(")");
                text
            },
        }
    }
}

} // verus!
