//! The scan cursor: the unread characters as a stack, and the count of those consumed.

use vstd::prelude::*;

verus! {

/// The text that a stack of characters holds, in reading order: the stack from its
/// top down.
pub open spec fn unread(stack: Seq<char>) -> Seq<char> {
    stack.reverse()
}

/// Turning a stack over twice gives the stack back, and turning it over keeps its
/// length.
pub proof fn lemma_unread_twice(text: Seq<char>)
    ensures
        unread(unread(text)) == text,
        unread(text).len() == text.len(),
{
    assert(text.reverse().reverse() =~= text);
}

/// Reading a stack from its top is reading its text from the front.
pub proof fn lemma_unread_pop(stack: Seq<char>)
    requires
        stack.len() > 0,
    ensures
        unread(stack).first() == stack.last(),
        unread(stack).drop_first() == unread(stack.drop_last()),
{
    assert(stack.reverse().drop_first() =~= stack.drop_last().reverse());
}

/// Takes the next character, if there is one, and counts it.
pub fn take_next(lexer_vec: &mut Vec<char>, char_pointer: &mut usize) -> (next: Option<char>)
    requires
        *old(char_pointer) + old(lexer_vec).len() <= usize::MAX,
    ensures
        match next {
            Some(c) => {
                &&& unread(old(lexer_vec)@).len() > 0
                &&& c == unread(old(lexer_vec)@).first()
                &&& unread(final(lexer_vec)@) == unread(old(lexer_vec)@).drop_first()
                &&& *final(char_pointer) == *old(char_pointer) + 1
            },
            None => {
                &&& unread(old(lexer_vec)@).len() == 0
                &&& final(lexer_vec)@ == old(lexer_vec)@
                &&& *final(char_pointer) == *old(char_pointer)
            },
        },
        *final(char_pointer) + final(lexer_vec).len() <= usize::MAX,
{
    proof {
        lemma_unread_twice(lexer_vec@);
        if lexer_vec@.len() > 0 {
            lemma_unread_pop(lexer_vec@);
        }
    }
    let next = lexer_vec.pop();
    if next.is_some() {
        *char_pointer = *char_pointer + 1;
    }
    next
}

/// The characters of `s` as a stack, the first one on top.
pub fn char_stack(s: &str) -> (stack: Vec<char>)
    ensures
        unread(stack@) == s@,
{
    let mut forward: Vec<char> = Vec::new();
    for c in it: s.chars()
        invariant
            it.seq() == s@,
            forward@ == s@.take(it.index() as int),
    {
        forward.push(c);
    }
    let mut stack: Vec<char> = Vec::new();
    let mut left = forward.len();
    while left > 0
        invariant
            forward@ == s@,
            left <= forward.len(),
            stack@.len() == forward.len() - left,
            forall|i: int| 0 <= i < stack@.len() ==> stack@[i] == forward@[forward.len() - 1 - i],
        decreases left,
    {
        left -= 1;
        stack.push(forward[left]);
    }
    assert(stack@.reverse() =~= s@);
    stack
}

} // verus!
