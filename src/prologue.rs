//! The directive prologue: the leading string-literal statements of a
//! program or function body, and the `"use strict"` directive among them.
use vstd::prelude::*;

use crate::context::Flag;
use crate::cursor::{ParserImpl, same_observable};
use crate::token::Span;

verus! {

/// What the directive rule needs to know of a parsed statement: where it
/// starts, and the span of its string literal when it is an expression
/// statement whose expression is a string literal.
#[derive(Debug, Clone, Copy, PartialEq, Eq, Structural)]
pub struct StatementHead {
    pub start: u32,
    pub string_literal: Option<Span>,
}

/// A directive: a string-literal expression statement whose literal starts
/// where the statement does (a parenthesized literal is no directive).
pub open spec fn is_directive(s: StatementHead) -> bool {
    s.string_literal matches Some(l) && l.start == s.start
}

/// The text of a string literal at `l` between its quotes.
pub open spec fn literal_text(source: Seq<u8>, l: Span) -> Seq<u8> {
    if l.start + 2 <= l.end && l.end <= source.len() {
        source.subrange(l.start + 1, l.end - 1)
    } else {
        Seq::empty()
    }
}

/// `use strict`.
pub open spec fn use_strict() -> Seq<u8> {
    seq![117u8, 115u8, 101u8, 32u8, 115u8, 116u8, 114u8, 105u8, 99u8, 116u8]
}

/// Whether the statement at `i` is a `"use strict"` directive.
pub open spec fn is_use_strict(stmts: Seq<StatementHead>, source: Seq<u8>, i: int) -> bool {
    is_directive(stmts[i]) && literal_text(source, stmts[i].string_literal.unwrap()) == use_strict()
}

fn bytes_equal(a: &[u8], b: &[u8]) -> (r: bool)
    ensures
        r == (a@ == b@),
{
    if a.len() != b.len() {
        return false;
    }
    let mut i: usize = 0;
    while i < a.len()
        invariant
            a@.len() == b@.len(),
            0 <= i <= a@.len(),
            forall|k: int| 0 <= k < i ==> a@[k] == b@[k],
        decreases a@.len() - i,
    {
        if a[i] != b[i] {
            return false;
        }
        i = i + 1;
    }
    assert(a@ =~= b@);
    true
}

/// The text of the string literal at `l` between its quotes.
fn literal_bytes(source: &[u8], l: Span) -> (r: &[u8])
    ensures
        r@ == literal_text(source@, l),
{
    if (l.start as u64) + 2 <= (l.end as u64) && (l.end as usize) <= source.len() {
        vstd::slice::slice_subrange(source, l.start as usize + 1, l.end as usize - 1)
    } else {
        let empty: &[u8] = &[];
        assert(empty@ =~= Seq::<u8>::empty());
        empty
    }
}

/// The directive prologue of `stmts`: the number of leading directives, and
/// whether one of them is `"use strict"`, which puts the rest of the code in
/// strict mode.
pub fn directive_prologue(stmts: &[StatementHead], source: &[u8]) -> (r: (usize, bool))
    ensures
        r.0 <= stmts@.len(),
        forall|i: int| 0 <= i < r.0 ==> is_directive(#[trigger] stmts@[i]),
        r.0 == stmts@.len() || !is_directive(stmts@[r.0 as int]),
        r.1 == exists|i: int| 0 <= i < r.0 && is_use_strict(stmts@, source@, i),
{
    let strict: [u8; 10] = [117u8, 115u8, 101u8, 32u8, 115u8, 116u8, 114u8, 105u8, 99u8, 116u8];
    let strict_bytes = strict.as_slice();
    assert(strict_bytes@ =~= use_strict());
    let mut has_use_strict = false;
    let mut i: usize = 0;
    while i < stmts.len()
        invariant
            strict_bytes@ == use_strict(),
            0 <= i <= stmts@.len(),
            forall|k: int| 0 <= k < i ==> is_directive(#[trigger] stmts@[k]),
            has_use_strict == exists|k: int| 0 <= k < i && is_use_strict(stmts@, source@, k),
        decreases stmts@.len() - i,
    {
        let s = stmts[i];
        match s.string_literal {
            Some(l) => {
                if l.start != s.start {
                    return (i, has_use_strict);
                }
                if bytes_equal(literal_bytes(source, l), strict_bytes) {
                    has_use_strict = true;
                    assert(is_use_strict(stmts@, source@, i as int));
                }
            },
            None => {
                return (i, has_use_strict);
            },
        }
        i = i + 1;
    }
    (i, has_use_strict)
}

impl ParserImpl {
    /// Reads the directive prologue of `stmts`, the leading statements of
    /// the program or a function body, and puts the parser in strict mode
    /// where a `"use strict"` directive is among them. Returns the number of
    /// directives and whether `"use strict"` was found.
    pub fn apply_directive_prologue(&mut self, stmts: &[StatementHead], source: &[u8]) -> (r: (
        usize,
        bool,
    ))
        requires
            old(self).wf(),
        ensures
            final(self).wf(),
            r.0 <= stmts@.len(),
            forall|i: int| 0 <= i < r.0 ==> is_directive(#[trigger] stmts@[i]),
            r.0 == stmts@.len() || !is_directive(stmts@[r.0 as int]),
            r.1 == exists|i: int| 0 <= i < r.0 && is_use_strict(stmts@, source@, i),
            final(self).ctx.has(Flag::StrictMode) == (old(self).ctx.has(Flag::StrictMode) || r.1),
            forall|f: Flag| f != Flag::StrictMode ==> final(self).ctx.has(f) == old(self).ctx.has(f),
            same_observable(*old(self), *final(self)),
            final(self).tokens@ == old(self).tokens@,
            final(self).context_stack@ == old(self).context_stack@,
            final(self).state.paren_stack@ == old(self).state.paren_stack@,
            final(self).options == old(self).options,
    {
        let r = directive_prologue(stmts, source);
        if r.1 {
            self.ctx = self.ctx.union_if(Flag::StrictMode, true);
        }
        r
    }
}

} // verus!
