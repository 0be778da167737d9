//! Auxiliary parser state kept across productions.
use vstd::prelude::*;

use crate::token::Span;

verus! {

/// State that outlives a single production.
pub struct ParserState {
    /// The spans of the `(` that are open, oldest first. Kept only when
    /// errors are recovered from, to report parentheses left unclosed.
    pub paren_stack: Vec<Span>,
}

impl ParserState {
    pub fn new() -> (r: ParserState)
        ensures
            r.paren_stack@ == Seq::<Span>::empty(),
    {
        ParserState { paren_stack: Vec::new() }
    }

    /// Records an opening parenthesis.
    pub fn push_paren(&mut self, span: Span)
        ensures
            final(self).paren_stack@ == old(self).paren_stack@.push(span),
    {
        self.paren_stack.push(span);
    }

    /// Forgets the innermost open parenthesis; `true` iff there was one.
    pub fn pop_paren(&mut self) -> (r: bool)
        ensures
            r == (old(self).paren_stack@.len() > 0),
            paren_popped(old(self).paren_stack@, final(self).paren_stack@),
    {
        self.paren_stack.pop().is_some()
    }

    /// Whether some parenthesis is open.
    pub fn has_unclosed_parens(&self) -> (r: bool)
        ensures
            r == (self.paren_stack@.len() > 0),
    {
        self.paren_stack.len() > 0
    }

    /// The span of the oldest open parenthesis.
    pub fn first_unclosed_paren(&self) -> (r: Option<Span>)
        ensures
            self.paren_stack@.len() == 0 ==> r is None,
            self.paren_stack@.len() > 0 ==> r == Some(self.paren_stack@[0]),
    {
        if self.paren_stack.len() == 0 {
            None
        } else {
            Some(self.paren_stack[0])
        }
    }

    /// Forgets every open parenthesis.
    pub fn clear_parens(&mut self)
        ensures
            final(self).paren_stack@ == Seq::<Span>::empty(),
    {
        self.paren_stack.clear();
    }
}

/// `after` is the open parentheses `before` once the innermost is closed;
/// closing none leaves them as they are.
pub open spec fn paren_popped(before: Seq<Span>, after: Seq<Span>) -> bool {
    if before.len() == 0 {
        after == before
    } else {
        after == before.drop_last()
    }
}

/// Closing a parenthesis right after opening one leaves the open
/// parentheses as they were: pushes and pops balance.
pub proof fn law_paren_push_pop(before: Seq<Span>, span: Span, after: Seq<Span>)
    requires
        paren_popped(before.push(span), after),
    ensures
        after == before,
{
    assert(before.push(span).drop_last() =~= before);
}

impl Default for ParserState {
    fn default() -> (r: ParserState)
        ensures
            r.paren_stack@ == Seq::<Span>::empty(),
    {
        ParserState::new()
    }
}

} // verus!
