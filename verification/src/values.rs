//! The values that the lexer produces, each with its mathematical view.

use std::ops::{Deref, DerefMut};
use vstd::prelude::*;
use vstd::std_specs::convert::FromSpecImpl;

verus! {

/// One selector inside a bracketed index.
#[derive(Debug, Eq, PartialEq)]
pub enum Slicer {
    /// A single position.
    Index(usize),
    /// A range of positions; nothing relates the two bounds.
    Slice(usize, usize),
    /// A bare key: whatever does not read as a position.
    Ident(String),
}

/// What a [`Slicer`] denotes.
pub enum SlicerView {
    Index(nat),
    Slice(nat, nat),
    Ident(Seq<char>),
}

impl View for Slicer {
    type V = SlicerView;

    open spec fn view(&self) -> SlicerView {
        match *self {
            Slicer::Index(n) => SlicerView::Index(n as nat),
            Slicer::Slice(from, to) => SlicerView::Slice(from as nat, to as nat),
            Slicer::Ident(key) => SlicerView::Ident(key@),
        }
    }
}

impl Clone for Slicer {
    fn clone(&self) -> (r: Self)
        ensures
            r@ == self@,
    {
        match self {
            Slicer::Index(n) => Slicer::Index(*n),
            Slicer::Slice(from, to) => Slicer::Slice(*from, *to),
            Slicer::Ident(key) => Slicer::Ident(key.clone()),
        }
    }
}

/// The views of a list of selectors, in order.
pub open spec fn slicers_view(list: Seq<Slicer>) -> Seq<SlicerView> {
    list.map_values(|s: Slicer| s@)
}

/// A bracketed index applied to the segment before it.
#[derive(Debug, Eq, PartialEq)]
pub enum GenericObjectIndex {
    /// Every element: an empty pair of brackets.
    Wildcard,
    /// The selectors between the brackets, in order.
    Slice(Vec<Slicer>),
}

/// What a [`GenericObjectIndex`] denotes.
pub enum GenericObjectIndexView {
    Wildcard,
    Slice(Seq<SlicerView>),
}

impl View for GenericObjectIndex {
    type V = GenericObjectIndexView;

    open spec fn view(&self) -> GenericObjectIndexView {
        match *self {
            GenericObjectIndex::Wildcard => GenericObjectIndexView::Wildcard,
            GenericObjectIndex::Slice(list) => GenericObjectIndexView::Slice(slicers_view(list@)),
        }
    }
}

impl Clone for GenericObjectIndex {
    fn clone(&self) -> (r: Self)
        ensures
            r@ == self@,
    {
        match self {
            GenericObjectIndex::Wildcard => GenericObjectIndex::Wildcard,
            GenericObjectIndex::Slice(list) => {
                let copy = list.clone();
                assert(slicers_view(copy@) =~= slicers_view(list@));
                GenericObjectIndex::Slice(copy)
            },
        }
    }
}

/// One step of a path.
#[derive(Debug, Eq, PartialEq)]
pub enum LexOperator {
    /// A named segment.
    Identifier(String),
    /// A combinator stage. No scanner produces it.
    Pipe(Vec<LexOperator>),
    /// A bracketed index.
    Generic(GenericObjectIndex),
}

/// What a [`LexOperator`] denotes.
pub enum LexOperatorView {
    Identifier(Seq<char>),
    Pipe(Seq<LexOperatorView>),
    Generic(GenericObjectIndexView),
}

impl View for LexOperator {
    type V = LexOperatorView;

    open spec fn view(&self) -> LexOperatorView
        decreases self,
    {
        match *self {
            LexOperator::Identifier(name) => LexOperatorView::Identifier(name@),
            LexOperator::Pipe(list) => LexOperatorView::Pipe(
                Seq::new(
                    list@.len(),
                    |i: int|
                        if 0 <= i < list@.len() {
                            list@[i].view()
                        } else {
                            arbitrary()
                        },
                ),
            ),
            LexOperator::Generic(index) => LexOperatorView::Generic(index@),
        }
    }
}

/// The views of a list of steps, in order.
pub open spec fn operators_view(list: Seq<LexOperator>) -> Seq<LexOperatorView> {
    list.map_values(|o: LexOperator| o@)
}

/// A combinator stage denotes the stage of what its steps denote.
pub proof fn lemma_pipe_view(list: Vec<LexOperator>)
    ensures
        LexOperator::Pipe(list)@ == LexOperatorView::Pipe(operators_view(list@)),
{
    reveal_with_fuel(<LexOperator as View>::view, 2);
    assert(LexOperator::Pipe(list)@->Pipe_0 =~= operators_view(list@));
}

/// A copy of `list`, step by step.
pub fn clone_operators(list: &Vec<LexOperator>) -> (r: Vec<LexOperator>)
    ensures
        operators_view(r@) == operators_view(list@),
    decreases list, 0nat,
{
    let mut copy: Vec<LexOperator> = Vec::new();
    let mut i: usize = 0;
    while i < list.len()
        invariant
            i <= list.len(),
            copy@.len() == i,
            forall|k: int| 0 <= k < i ==> (#[trigger] copy@[k])@ == list@[k]@,
        decreases list.len() - i,
    {
        copy.push(list[i].clone());
        i += 1;
    }
    assert(operators_view(copy@) =~= operators_view(list@));
    copy
}

impl Clone for LexOperator {
    fn clone(&self) -> (r: Self)
        ensures
            r@ == self@,
        decreases self, 1nat,
    {
        match self {
            LexOperator::Identifier(name) => LexOperator::Identifier(name.clone()),
            LexOperator::Pipe(list) => {
                let copy = clone_operators(list);
                proof {
                    lemma_pipe_view(copy);
                    lemma_pipe_view(*list);
                }
                LexOperator::Pipe(copy)
            },
            LexOperator::Generic(index) => LexOperator::Generic(index.clone()),
        }
    }
}

/// The steps of a path, from left to right.
#[derive(Debug, Eq, PartialEq)]
pub struct LexicalOperations(Vec<LexOperator>);

impl View for LexicalOperations {
    type V = Seq<LexOperatorView>;

    closed spec fn view(&self) -> Seq<LexOperatorView> {
        operators_view(self.0@)
    }
}

impl Clone for LexicalOperations {
    fn clone(&self) -> (r: Self)
        ensures
            r@ == self@,
    {
        LexicalOperations(clone_operators(&self.0))
    }
}

impl From<Vec<LexOperator>> for LexicalOperations {
    fn from(v: Vec<LexOperator>) -> (r: Self)
        ensures
            r@ == operators_view(v@),
    {
        LexicalOperations(v)
    }
}

impl FromSpecImpl<Vec<LexOperator>> for LexicalOperations {
    open spec fn obeys_from_spec() -> bool {
        true
    }

    closed spec fn from_spec(v: Vec<LexOperator>) -> Self {
        LexicalOperations(v)
    }
}

impl Deref for LexicalOperations {
    type Target = Vec<LexOperator>;

    fn deref(&self) -> (list: &Vec<LexOperator>)
        ensures
            operators_view(list@) == self@,
    {
        &self.0
    }
}

impl DerefMut for LexicalOperations {
    fn deref_mut(&mut self) -> (list: &mut Vec<LexOperator>)
        ensures
            operators_view(list@) == old(self)@,
            final(self)@ == operators_view(final(list)@),
    {
        &mut self.0
    }
}

} // verus!
