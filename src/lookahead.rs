//! Questions answered by looking at the tokens ahead, leaving the cursor
//! where it was.
use vstd::prelude::*;

use crate::cursor::{ParserImpl, same_frame, same_observable};
use crate::token::{Kind, Token};

verus! {

/// The index after `i` in `toks`; end of input is never passed.
pub open spec fn nxt(toks: Seq<Token>, i: int) -> int {
    if i + 1 < toks.len() {
        i + 1
    } else {
        i
    }
}

/// What follows the name of an index signature candidate at `c`: `:` or
/// `,`, or `?` then `:`, `,` or `]`.
pub open spec fn index_signature_tail(toks: Seq<Token>, c: int) -> bool {
    let k = toks[c].kind;
    if k == Kind::Colon || k == Kind::Comma {
        true
    } else if k != Kind::Question {
        false
    } else {
        let d = toks[nxt(toks, c)].kind;
        d == Kind::Colon || d == Kind::Comma || d == Kind::RBrack
    }
}

/// Whether the `[` at `i` opens an index signature, not a computed name:
/// `[...`, `[[`, `[modifier name`, or `[name` followed by `:`, `,`, or `?`
/// and one of `:`, `,`, `]`.
pub open spec fn index_signature_ahead(toks: Seq<Token>, i: int) -> bool {
    let a = nxt(toks, i);
    let ka = toks[a].kind;
    if ka == Kind::Dot3 || ka == Kind::LBrack {
        true
    } else if ka.modifier() {
        let b = nxt(toks, a);
        toks[b].kind.ident() || index_signature_tail(toks, b)
    } else if !ka.ident() {
        false
    } else {
        index_signature_tail(toks, nxt(toks, a))
    }
}

/// The tokens after `export` that begin an export of any form: `=`, `*`,
/// `default`, `{`, `@`, `as`.
pub open spec fn export_form(k: Kind) -> bool {
    k == Kind::Eq || k == Kind::Star || k == Kind::Default || k == Kind::LCurly || k == Kind::At
        || k == Kind::As
}

/// Whether a TypeScript declaration starts at `i`: after any modifiers,
/// `var`, `let`, `const`, `function`, `class` or `enum`; `interface` or `type`
/// followed by a name on the same line; `module` or `namespace` followed on
/// the same line by a name or a string; `global` followed by a name, `{` or
/// `export`; `import` followed by a string, `*`, `{` or a name; or `export`.
pub open spec fn ts_declaration_start(toks: Seq<Token>, i: int) -> bool
    decreases toks.len() - i,
{
    let k = toks[i].kind;
    let j = nxt(toks, i);
    if k == Kind::Var || k == Kind::Let || k == Kind::Const || k == Kind::Function || k
        == Kind::Class || k == Kind::Enum {
        true
    } else if k == Kind::Interface || k == Kind::Type {
        toks[j].kind.ident() && !toks[j].on_new_line
    } else if k == Kind::Module || k == Kind::Namespace {
        !toks[j].on_new_line && (toks[j].kind.ident() || toks[j].kind == Kind::Str)
    } else if k == Kind::Abstract || k == Kind::Accessor || k == Kind::Async || k == Kind::Declare
        || k == Kind::Private || k == Kind::Protected || k == Kind::Public || k == Kind::Readonly {
        if toks[j].on_new_line || j <= i {
            false
        } else {
            ts_declaration_start(toks, j)
        }
    } else if k == Kind::Global {
        toks[j].kind == Kind::Ident || toks[j].kind == Kind::LCurly || toks[j].kind == Kind::Export
    } else if k == Kind::Import {
        let kj = toks[j].kind;
        kj == Kind::Str || kj == Kind::Star || kj == Kind::LCurly || kj.ident()
    } else if k == Kind::Export {
        let j2 = if toks[j].kind == Kind::Type {
            nxt(toks, j)
        } else {
            j
        };
        if export_form(toks[j2].kind) {
            true
        } else if j2 <= i {
            false
        } else {
            ts_declaration_start(toks, j2)
        }
    } else if k == Kind::Static {
        if j <= i {
            false
        } else {
            ts_declaration_start(toks, j)
        }
    } else {
        false
    }
}

/// Whether `await` at `i` begins `await using` with no line break before
/// `using` nor after it.
pub open spec fn await_using_ahead(toks: Seq<Token>, i: int) -> bool {
    let j = nxt(toks, i);
    toks[j].kind == Kind::Using && !toks[j].on_new_line && !toks[nxt(toks, j)].on_new_line
}

/// `b` is `a` after cursor work that only moved on, recorded diagnostics
/// and possibly set a fatal one.
pub open spec fn moved_on(a: ParserImpl, b: ParserImpl) -> bool {
    &&& same_frame(a, b)
    &&& a.pos <= b.pos
    &&& a.errors@.len() <= b.errors@.len()
    &&& b.errors@.take(a.errors@.len() as int) == a.errors@
}

impl ParserImpl {
    /// The position after one step is `nxt` of the current one.
    proof fn lemma_next_pos(&self)
        requires
            self.wf(),
        ensures
            self.next_pos() as int == nxt(self.tokens@, self.pos as int),
    {
    }

    /// Any state has moved on from itself.
    proof fn lemma_moved_on_refl(&self)
        ensures
            moved_on(*self, *self),
    {
        assert(self.errors@.take(self.errors@.len() as int) =~= self.errors@);
    }

    /// Moves past the current token, as a step of a lookahead from `base`.
    fn step(&mut self, Ghost(base): Ghost<ParserImpl>)
        requires
            old(self).wf(),
            moved_on(base, *old(self)),
        ensures
            final(self).wf(),
            moved_on(base, *final(self)),
            final(self).pos as int == nxt(old(self).tokens@, old(self).pos as int),
    {
        self.bump_any();
        assert(self.errors@.take(base.errors@.len() as int) =~= old(self).errors@.take(
            base.errors@.len() as int,
        ));
    }

    /// At `function`, or at `async` followed on the same line by `function`.
    pub fn at_function_with_async(&self) -> (r: bool)
        requires
            self.wf(),
        ensures
            r == (self.token.kind == Kind::Function || (self.token.kind == Kind::Async && ({
                let t = self.tokens@[nxt(self.tokens@, self.pos as int)];
                t.kind == Kind::Function && !t.on_new_line
            }))),
    {
        if self.at(Kind::Function) {
            return true;
        }
        if !self.at(Kind::Async) {
            return false;
        }
        let next = if self.pos < self.tokens.len() - 1 {
            self.pos + 1
        } else {
            self.pos
        };
        let token = self.tokens[next];
        token.kind == Kind::Function && !token.on_new_line
    }

    fn is_unambiguously_index_signature(&mut self) -> (r: bool)
        requires
            old(self).wf(),
        ensures
            final(self).wf(),
            moved_on(*old(self), *final(self)),
            r == index_signature_ahead(old(self).tokens@, old(self).pos as int),
    {
        let ghost toks = self.tokens@;
        let ghost a0 = *self;
        let ghost base = *self;
        proof {
            self.lemma_moved_on_refl();
        }
        self.step(Ghost(base));
        if matches!(self.cur_kind(), Kind::Dot3 | Kind::LBrack) {
            return true;
        }
        if self.cur_kind().is_modifier_kind() {
            self.step(Ghost(base));
            if self.cur_kind().is_identifier() {
                return true;
            }
        } else if !self.cur_kind().is_identifier() {
            return false;
        } else {
            self.step(Ghost(base));
        }
        let ghost c = self.pos as int;
        assert(index_signature_ahead(toks, a0.pos as int) == index_signature_tail(toks, c));
        if matches!(self.cur_kind(), Kind::Colon | Kind::Comma) {
            return true;
        }
        if self.cur_kind() != Kind::Question {
            return false;
        }
        self.step(Ghost(base));
        matches!(self.cur_kind(), Kind::Colon | Kind::Comma | Kind::RBrack)
    }

    /// Whether the current `[` opens an index signature rather than a
    /// computed member name. The cursor is left as it was.
    pub fn is_index_signature(&mut self) -> (r: bool)
        requires
            old(self).wf(),
        ensures
            final(self).wf(),
            r == (old(self).token.kind == Kind::LBrack && index_signature_ahead(
                old(self).tokens@,
                old(self).pos as int,
            )),
            same_observable(*old(self), *final(self)),
            same_frame(*old(self), *final(self)),
    {
        if !self.at(Kind::LBrack) {
            return false;
        }
        let ck = self.checkpoint();
        let r = self.is_unambiguously_index_signature();
        self.rewind(ck);
        assert(self.errors@ =~= old(self).errors@);
        r
    }

    fn at_start_of_ts_declaration_worker(&mut self) -> (r: bool)
        requires
            old(self).wf(),
        ensures
            final(self).wf(),
            moved_on(*old(self), *final(self)),
            r == ts_declaration_start(old(self).tokens@, old(self).pos as int),
    {
        let ghost toks = self.tokens@;
        let ghost goal = ts_declaration_start(toks, old(self).pos as int);
        let ghost base = *self;
        proof {
            self.lemma_moved_on_refl();
        }
        loop
            invariant
                self.wf(),
                base == *old(self),
                toks == old(self).tokens@,
                goal == ts_declaration_start(old(self).tokens@, old(self).pos as int),
                moved_on(base, *self),
                toks == self.tokens@,
                goal == ts_declaration_start(toks, self.pos as int),
            decreases self.tokens@.len() - self.pos,
        {
            proof {
                self.lemma_next_pos();
                self.lemma_bounds();
            }
            match self.cur_kind() {
                Kind::Var | Kind::Let | Kind::Const | Kind::Function | Kind::Class | Kind::Enum => {
                    return true;
                },
                Kind::Interface | Kind::Type => {
                    self.step(Ghost(base));
                    return self.cur_kind().is_binding_identifier() && !self.cur_token().on_new_line;
                },
                Kind::Module | Kind::Namespace => {
                    self.step(Ghost(base));
                    return !self.cur_token().on_new_line && (self.cur_kind().is_binding_identifier()
                        || self.cur_kind() == Kind::Str);
                },
                Kind::Abstract
                | Kind::Accessor
                | Kind::Async
                | Kind::Declare
                | Kind::Private
                | Kind::Protected
                | Kind::Public
                | Kind::Readonly => {
                    self.step(Ghost(base));
                    if self.cur_token().on_new_line {
                        return false;
                    }
                },
                Kind::Global => {
                    self.step(Ghost(base));
                    return matches!(self.cur_kind(), Kind::Ident | Kind::LCurly | Kind::Export);
                },
                Kind::Import => {
                    self.step(Ghost(base));
                    let kind = self.cur_kind();
                    return matches!(kind, Kind::Str | Kind::Star | Kind::LCurly)
                        || kind.is_identifier();
                },
                Kind::Export => {
                    self.step(Ghost(base));
                    if self.at(Kind::Type) {
                        self.step(Ghost(base));
                    }
                    if matches!(
                        self.cur_kind(),
                        Kind::Eq | Kind::Star | Kind::Default | Kind::LCurly | Kind::At | Kind::As
                    ) {
                        return true;
                    }
                },
                Kind::Static => {
                    self.step(Ghost(base));
                },
                _ => {
                    return false;
                },
            }
        }
    }

    /// Whether a TypeScript declaration starts at the current token. The
    /// cursor is left as it was.
    pub fn at_start_of_ts_declaration(&mut self) -> (r: bool)
        requires
            old(self).wf(),
        ensures
            final(self).wf(),
            r == ts_declaration_start(old(self).tokens@, old(self).pos as int),
            same_observable(*old(self), *final(self)),
            same_frame(*old(self), *final(self)),
    {
        let ck = self.checkpoint();
        let r = self.at_start_of_ts_declaration_worker();
        self.rewind(ck);
        assert(self.errors@ =~= old(self).errors@);
        r
    }

    /// At `await` that begins `await using`. The cursor is left as it was.
    pub fn at_await_using(&mut self) -> (r: bool)
        requires
            old(self).wf(),
        ensures
            final(self).wf(),
            r == (old(self).token.kind == Kind::Await && await_using_ahead(
                old(self).tokens@,
                old(self).pos as int,
            )),
            same_observable(*old(self), *final(self)),
            same_frame(*old(self), *final(self)),
    {
        if !self.at(Kind::Await) {
            return false;
        }
        let ck = self.checkpoint();
        let ghost base = *self;
        proof {
            self.lemma_moved_on_refl();
        }
        self.step(Ghost(base));
        let r = if !self.at(Kind::Using) || self.cur_token().on_new_line {
            false
        } else {
            self.step(Ghost(base));
            !self.cur_token().on_new_line
        };
        self.rewind(ck);
        assert(self.errors@ =~= old(self).errors@);
        r
    }
}

} // verus!
