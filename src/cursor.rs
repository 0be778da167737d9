//! The cursor: the current token over the lexer's token stream, the recorded
//! diagnostics and the fatal slot, with checkpoints for speculative parses.
use vstd::prelude::*;

use crate::context::{Context, Flag, ParsingContext, ParsingContextStack, popped};
use crate::diagnostics::{Diagnostic, DiagnosticKind, FatalError};
use crate::state::ParserState;
use crate::token::{Kind, Span, Token};
use crate::{Language, ModuleKind, ParseOptions, SourceType, UniquePromise};

verus! {

/// A token stream as the lexer produces it for a source of `len` bytes:
/// tokens in source order, none empty and none overlapping, ending with the
/// one end-of-input token at offset `len`.
pub open spec fn tokens_wf(toks: Seq<Token>, len: nat) -> bool {
    &&& toks.len() >= 1
    &&& toks.last().kind == Kind::Eof
    &&& toks.last().start == len
    &&& toks.last().end == len
    &&& !toks.last().escaped
    &&& forall|i: int| 0 <= i < toks.len() ==> #[trigger] token_in_place(toks, i, len)
}

/// The token at `i` lies within the source; unless it is the last, it is no
/// end of input, is not empty, and ends before the next one starts.
pub open spec fn token_in_place(toks: Seq<Token>, i: int, len: nat) -> bool {
    &&& toks[i].span_of().within(len)
    &&& i < toks.len() - 1 ==> {
        &&& toks[i].kind != Kind::Eof
        &&& toks[i].start < toks[i].end
        &&& toks[i].end <= toks[i + 1].start
    }
}

/// The grammar parameters a parse starts with: `[In]`, `Ambient` in a
/// declaration file, `[Await]` in a module, `[Return]` where the options allow
/// `return` outside functions.
pub open spec fn initial_context(source_type: SourceType, options: ParseOptions) -> Context {
    Context {
        allow_in: true,
        allow_yield: false,
        allow_await: source_type.module_kind == ModuleKind::Module,
        allow_return: options.allow_return_outside_function,
        decorator: false,
        disallow_conditional_types: false,
        ambient: source_type.language == Language::TypeScriptDefinition,
        strict_mode: false,
    }
}

/// A savepoint of the cursor: lexer position, current token, end of the
/// previous token, number of recorded diagnostics, and the fatal slot.
#[derive(Debug, Clone, Copy, PartialEq, Eq, Structural)]
pub struct ParserCheckpoint {
    pub lexer: usize,
    pub cur_token: Token,
    pub prev_span_end: u32,
    pub errors_pos: usize,
    pub fatal_error: Option<FatalError>,
}

/// The parser's state: options, the token stream and the position in it, the
/// diagnostics, the grammar parameters and the recovery bookkeeping.
pub struct ParserImpl {
    pub options: ParseOptions,
    pub source_type: SourceType,
    /// Length of the source text in bytes.
    pub source_len: u32,
    /// The lexer's output, ending with the end-of-input token.
    pub tokens: Vec<Token>,
    /// Index of the current token in `tokens`: the lexer position.
    pub pos: usize,
    /// Recorded, non-fatal diagnostics, in the order they were reported.
    pub errors: Vec<Diagnostic>,
    /// The first fatal diagnostic, when errors are not recovered from.
    pub fatal_error: Option<FatalError>,
    /// The current token.
    pub token: Token,
    /// The end of the previous token: the end of every span closed now.
    pub prev_token_end: u32,
    pub state: ParserState,
    /// Grammar parameters in force.
    pub ctx: Context,
    /// Delimited constructs being parsed, for error recovery.
    pub context_stack: ParsingContextStack,
}

/// Nothing but the position and the diagnostics may differ between `a` and `b`.
pub open spec fn same_frame(a: ParserImpl, b: ParserImpl) -> bool {
    &&& b.options == a.options
    &&& b.source_type == a.source_type
    &&& b.source_len == a.source_len
    &&& b.tokens@ == a.tokens@
    &&& b.ctx == a.ctx
    &&& b.context_stack@ == a.context_stack@
    &&& b.state.paren_stack@ == a.state.paren_stack@
}

/// `a` and `b` stand at the same token.
pub open spec fn same_position(a: ParserImpl, b: ParserImpl) -> bool {
    &&& b.pos == a.pos
    &&& b.token == a.token
    &&& b.prev_token_end == a.prev_token_end
}

/// What a checkpoint saves is the same in `a` and `b`: token, end of the
/// previous token, diagnostics, fatal slot and lexer position.
pub open spec fn same_observable(a: ParserImpl, b: ParserImpl) -> bool {
    &&& same_position(a, b)
    &&& b.errors@ == a.errors@
    &&& b.fatal_error == a.fatal_error
}

/// `b` is `a` moved one token on, past a token read as `kind`.
pub open spec fn stepped(a: ParserImpl, b: ParserImpl, kind: Kind) -> bool {
    &&& b.pos == a.next_pos()
    &&& b.token == a.tokens@[a.next_pos() as int]
    &&& b.prev_token_end == a.token.end
    &&& b.errors@ == a.errors@ + a.escape_errors(kind)
    &&& b.fatal_error == a.escape_fatal(kind)
    &&& same_frame(a, b)
}

/// `b` is `a` after requiring a token and moving past the current one,
/// read as `kind`; `failed` when the required token was not there, and `d`
/// was reported for it.
pub open spec fn checked_step(a: ParserImpl, b: ParserImpl, kind: Kind, d: Diagnostic, failed: bool) -> bool {
    &&& b.pos == a.next_pos()
    &&& b.token == a.tokens@[a.next_pos() as int]
    &&& b.prev_token_end == a.token.end
    &&& b.errors@ == (if failed {
        a.reported_errors(d)
    } else {
        a.errors@
    }) + a.escape_errors(kind)
    &&& b.fatal_error == (if failed {
        a.reported_fatal(d)
    } else {
        a.escape_fatal(kind)
    })
    &&& b.options == a.options
    &&& b.source_type == a.source_type
    &&& b.source_len == a.source_len
    &&& b.tokens@ == a.tokens@
    &&& b.ctx == a.ctx
    &&& b.context_stack@ == a.context_stack@
}

/// `b` is `a` after the diagnostic `d`: recorded when errors are recovered
/// from; otherwise kept as the fatal diagnostic, unless one is already kept.
/// The cursor does not move.
pub open spec fn reported(a: ParserImpl, b: ParserImpl, d: Diagnostic) -> bool {
    &&& same_frame(a, b)
    &&& same_position(a, b)
    &&& b.errors@ == a.reported_errors(d)
    &&& b.fatal_error == a.reported_fatal(d)
}

/// `b` is `a` after `checkpoint` returned `ck`: the fatal slot is taken out,
/// nothing else changes.
pub open spec fn checkpointed(a: ParserImpl, b: ParserImpl, ck: ParserCheckpoint) -> bool {
    &&& ck == a.checkpoint_of()
    &&& ck.errors_pos == a.errors@.len()
    &&& same_position(a, b)
    &&& b.errors@ == a.errors@
    &&& b.fatal_error is None
    &&& same_frame(a, b)
}

/// `b` is `a` rewound to `ck`; the grammar parameters are not part of a
/// checkpoint.
pub open spec fn rewound(a: ParserImpl, b: ParserImpl, ck: ParserCheckpoint) -> bool {
    &&& b.pos == ck.lexer
    &&& b.token == ck.cur_token
    &&& b.prev_token_end == ck.prev_span_end
    &&& b.errors@ == a.errors@.take(ck.errors_pos as int)
    &&& b.fatal_error == ck.fatal_error
    &&& b.options == a.options
    &&& b.source_type == a.source_type
    &&& b.source_len == a.source_len
    &&& b.tokens@ == a.tokens@
    &&& b.context_stack@ == a.context_stack@
    &&& b.state.paren_stack@ == a.state.paren_stack@
}

/// `b` is `a` after a speculative parse from `ck` ended with `r`: committed
/// (`a` unchanged) iff it set no fatal diagnostic and recorded none;
/// otherwise rewound, with the grammar parameters `ctx` back.
pub open spec fn try_parse_finished(
    a: ParserImpl,
    b: ParserImpl,
    ck: ParserCheckpoint,
    ctx: Context,
    r: bool,
) -> bool {
    &&& r == (a.fatal_error is None && a.errors@.len() == ck.errors_pos)
    &&& r ==> b == a
    &&& !r ==> rewound(a, b, ck) && b.ctx == ctx
}

/// Speculative work after a checkpoint taken in `a` left `m` with the
/// diagnostics of `a` in front: cursor operations only append diagnostics,
/// or drop those recorded after a checkpoint.
pub open spec fn extends_errors(a: ParserImpl, m: ParserImpl) -> bool {
    &&& a.errors@.len() <= m.errors@.len()
    &&& m.errors@.take(a.errors@.len() as int) == a.errors@
}

/// Taking a checkpoint and rewinding to it at once leaves the token, the end
/// of the previous token, the diagnostics, the fatal slot and the lexer
/// position as they were.
pub proof fn law_checkpoint_rewind(a: ParserImpl, b: ParserImpl, ck: ParserCheckpoint, c: ParserImpl)
    requires
        a.wf(),
        checkpointed(a, b, ck),
        rewound(b, c, ck),
    ensures
        same_observable(a, c),
{
    assert(c.errors@ =~= a.errors@);
}

/// A lookahead (a checkpoint, any cursor work, a rewind to the checkpoint)
/// leaves everything that the checkpoint saves as it was.
pub proof fn law_lookahead_pure(
    a: ParserImpl,
    b: ParserImpl,
    ck: ParserCheckpoint,
    m: ParserImpl,
    c: ParserImpl,
)
    requires
        a.wf(),
        checkpointed(a, b, ck),
        extends_errors(a, m),
        rewound(m, c, ck),
    ensures
        same_observable(a, c),
{
    assert(c.errors@ =~= a.errors@);
}

/// A speculative parse that is kept added no diagnostic to those of the
/// state it started in and set no fatal one; one that is not kept leaves the
/// cursor as it was before the checkpoint, grammar parameters included.
pub proof fn law_try_parse(
    a: ParserImpl,
    b: ParserImpl,
    ck: ParserCheckpoint,
    m: ParserImpl,
    c: ParserImpl,
    r: bool,
)
    requires
        a.wf(),
        checkpointed(a, b, ck),
        extends_errors(a, m),
        try_parse_finished(m, c, ck, a.ctx, r),
    ensures
        r ==> c.errors@ == a.errors@ && c.fatal_error is None,
        !r ==> same_observable(a, c) && c.ctx == a.ctx,
{
    assert(m.errors@.take(a.errors@.len() as int) =~= a.errors@);
    if r {
        assert(m.errors@ =~= a.errors@);
    } else {
        assert(c.errors@ =~= a.errors@);
    }
}

/// A span opened at a token and closed after moving past it lies within the
/// source and does not end before it starts.
pub proof fn law_span_after_step(a: ParserImpl, b: ParserImpl, kind: Kind)
    requires
        a.wf(),
        stepped(a, b, kind),
    ensures
        (Span { start: a.token.start, end: b.prev_token_end }).within(a.source_len as nat),
{
    a.lemma_bounds();
}

impl ParserImpl {
    pub open spec fn wf(&self) -> bool {
        &&& tokens_wf(self.tokens@, self.source_len as nat)
        &&& self.tokens@.len() <= usize::MAX
        &&& self.pos < self.tokens@.len()
        &&& self.token == self.tokens@[self.pos as int]
        &&& self.prev_token_end <= self.token.start
        &&& self.context_stack.wf()
        &&& (self.fatal_error matches Some(f) ==> f.errors_len <= self.errors@.len())
        &&& (self.options.recover_from_errors ==> self.fatal_error is None)
        &&& (!self.options.recover_from_errors ==> self.errors@.len() == 0)
        &&& (!self.options.recover_from_errors ==> self.state.paren_stack@.len() == 0)
    }

    /// The current token lies within the source, and so does the end of the
    /// previous one.
    pub proof fn lemma_bounds(&self)
        requires
            self.wf(),
        ensures
            self.token.start <= self.token.end <= self.source_len,
            self.prev_token_end <= self.source_len,
            !self.at_end() ==> self.token.kind != Kind::Eof && self.token.start < self.token.end
                && self.token.end <= self.tokens@[self.pos + 1].start,
            self.at_end() <==> self.token.kind == Kind::Eof,
    {
        assert(token_in_place(self.tokens@, self.pos as int, self.source_len as nat));
    }

    /// The lexer position after one more token; end of input is never passed.
    pub open spec fn next_pos(&self) -> usize {
        if self.pos + 1 < self.tokens@.len() {
            (self.pos + 1) as usize
        } else {
            self.pos
        }
    }

    /// At the end-of-input token.
    pub open spec fn at_end(&self) -> bool {
        self.pos == self.tokens@.len() - 1
    }

    /// Moving past the current token, read as `kind`, meets a keyword
    /// spelled with an escape sequence.
    pub open spec fn escapes(&self, kind: Kind) -> bool {
        self.token.escaped && kind.keyword()
    }

    /// The diagnostic for an escaped keyword at the current token.
    pub open spec fn escape_error(&self) -> Diagnostic {
        Diagnostic { kind: DiagnosticKind::EscapedKeyword, span: self.token.span_of() }
    }

    /// What moving past the current token, read as `kind`, records: an
    /// escaped keyword, when errors are recovered from.
    pub open spec fn escape_errors(&self, kind: Kind) -> Seq<Diagnostic> {
        if self.options.recover_from_errors && self.escapes(kind) {
            seq![self.escape_error()]
        } else {
            Seq::empty()
        }
    }

    /// The fatal slot after moving past the current token, read as `kind`:
    /// an escaped keyword is fatal when errors are not recovered from.
    pub open spec fn escape_fatal(&self, kind: Kind) -> Option<FatalError> {
        if self.escapes(kind) {
            self.reported_fatal(self.escape_error())
        } else {
            self.fatal_error
        }
    }

    /// The recorded diagnostics after reporting `d` in this state.
    pub open spec fn reported_errors(&self, d: Diagnostic) -> Seq<Diagnostic> {
        if self.options.recover_from_errors {
            self.errors@.push(d)
        } else {
            self.errors@
        }
    }

    /// The checkpoint taken in this state.
    pub open spec fn checkpoint_of(&self) -> ParserCheckpoint {
        ParserCheckpoint {
            lexer: self.pos,
            cur_token: self.token,
            prev_span_end: self.prev_token_end,
            errors_pos: self.errors@.len() as usize,
            fatal_error: self.fatal_error,
        }
    }

    /// A checkpoint that this state can be rewound to: one taken on the same
    /// token stream, at most as many diagnostics ago as are recorded now.
    pub open spec fn can_rewind_to(&self, ck: ParserCheckpoint) -> bool {
        &&& ck.lexer < self.tokens@.len()
        &&& ck.cur_token == self.tokens@[ck.lexer as int]
        &&& ck.prev_span_end <= ck.cur_token.start
        &&& ck.errors_pos <= self.errors@.len()
        &&& (ck.fatal_error matches Some(f) ==> f.errors_len <= ck.errors_pos)
        &&& (self.options.recover_from_errors ==> ck.fatal_error is None)
    }

    /// Whether `toks` is a token stream of a source of `len` bytes.
    pub fn check_tokens(toks: &Vec<Token>, len: u32) -> (r: bool)
        ensures
            r == tokens_wf(toks@, len as nat),
    {
        let n = toks.len();
        if n == 0 {
            return false;
        }
        let last = toks[n - 1];
        if !(last.kind == Kind::Eof && last.start == len && last.end == len && !last.escaped) {
            return false;
        }
        let mut i: usize = 0;
        while i < n
            invariant
                n == toks@.len(),
                n >= 1,
                0 <= i <= n,
                forall|j: int| 0 <= j < i ==> #[trigger] token_in_place(toks@, j, len as nat),
            decreases n - i,
        {
            let t = toks[i];
            if !(t.start <= t.end && t.end <= len) {
                assert(!token_in_place(toks@, i as int, len as nat));
                return false;
            }
            if i + 1 < n {
                if !(t.kind != Kind::Eof && t.start < t.end && t.end <= toks[i + 1].start) {
                    assert(!token_in_place(toks@, i as int, len as nat));
                    return false;
                }
            }
            assert(token_in_place(toks@, i as int, len as nat));
            i = i + 1;
        }
        true
    }

    /// The grammar parameters a parse of `source_type` with `options` starts with.
    pub fn default_context(source_type: SourceType, options: ParseOptions) -> (r: Context)
        ensures
            r == initial_context(source_type, options),
    {
        let mut ctx = Context::default().and_ambient(
            source_type.language == Language::TypeScriptDefinition,
        );
        if source_type.module_kind == ModuleKind::Module {
            ctx = ctx.and_await(true);
        }
        if options.allow_return_outside_function {
            ctx = ctx.and_return(true);
        }
        assert(ctx.has(Flag::In) && !ctx.has(Flag::Yield) && !ctx.has(Flag::Decorator)
            && !ctx.has(Flag::DisallowConditionalTypes) && !ctx.has(Flag::StrictMode));
        assert(ctx.has(Flag::Await) == (source_type.module_kind == ModuleKind::Module));
        assert(ctx.has(Flag::Return) == options.allow_return_outside_function);
        assert(ctx.has(Flag::Ambient) == (source_type.language
            == Language::TypeScriptDefinition));
        ctx
    }

    /// A parser at the first token of `tokens`, or `None` where `tokens` is
    /// no token stream of a source of `source_len` bytes.
    pub fn new(
        tokens: Vec<Token>,
        source_len: u32,
        source_type: SourceType,
        options: ParseOptions,
        unique: UniquePromise,
    ) -> (r: Option<ParserImpl>)
        ensures
            r is Some <==> tokens_wf(tokens@, source_len as nat),
            r matches Some(p) ==> {
                &&& p.wf()
                &&& p.tokens@ == tokens@
                &&& p.source_len == source_len
                &&& p.source_type == source_type
                &&& p.options == options
                &&& p.pos == 0
                &&& p.prev_token_end == 0
                &&& p.errors@.len() == 0
                &&& p.fatal_error is None
                &&& p.ctx == initial_context(source_type, options)
                &&& p.context_stack@ == seq![ParsingContext::TopLevel]
                &&& p.state.paren_stack@.len() == 0
            },
    {
        if !ParserImpl::check_tokens(&tokens, source_len) {
            return None;
        }
        let token = tokens[0];
        assert(tokens@.len() == tokens.len());
        Some(
            ParserImpl {
                options,
                source_type,
                source_len,
                tokens,
                pos: 0,
                errors: Vec::new(),
                fatal_error: None,
                token,
                prev_token_end: 0,
                state: ParserState::new(),
                ctx: ParserImpl::default_context(source_type, options),
                context_stack: ParsingContextStack::new(),
            },
        )
    }

    /// The start of a span that begins at the current token.
    pub fn start_span(&self) -> (r: u32)
        ensures
            r == self.token.start,
    {
        self.token.start
    }

    /// The span from `start` to the end of the previous token.
    pub fn end_span(&self, start: u32) -> (r: Span)
        requires
            self.wf(),
        ensures
            r == (Span { start, end: self.prev_token_end }),
            start <= self.prev_token_end ==> r.within(self.source_len as nat),
    {
        proof {
            self.lemma_bounds();
        }
        Span::new(start, self.prev_token_end)
    }

    /// The source text of `token`, a token of this parser's stream, in
    /// `source`, the text the stream was made from.
    pub fn token_source<'s>(&self, source: &'s [u8], token: &Token) -> (r: &'s [u8])
        requires
            self.wf(),
            source@.len() == self.source_len,
            self.tokens@.contains(*token),
        ensures
            r@ == source@.subrange(token.start as int, token.end as int),
    {
        proof {
            let i = choose|i: int| 0 <= i < self.tokens@.len() && self.tokens@[i] == *token;
            assert(token_in_place(self.tokens@, i, self.source_len as nat));
        }
        vstd::slice::slice_subrange(source, token.start as usize, token.end as usize)
    }

    /// The source text of the current token.
    pub fn cur_src<'s>(&self, source: &'s [u8]) -> (r: &'s [u8])
        requires
            self.wf(),
            source@.len() == self.source_len,
        ensures
            r@ == source@.subrange(self.token.start as int, self.token.end as int),
    {
        proof {
            self.lemma_bounds();
        }
        vstd::slice::slice_subrange(source, self.token.start as usize, self.token.end as usize)
    }

    /// The innermost active parsing context.
    pub fn current_context(&self) -> (r: ParsingContext)
        requires
            self.wf(),
        ensures
            r == self.context_stack@.last(),
    {
        self.context_stack.current()
    }

    /// Opens the delimited construct `ctx` when errors are recovered from:
    /// the context stack is kept for recovery only.
    pub fn enter_context(&mut self, ctx: ParsingContext)
        requires
            old(self).wf(),
        ensures
            final(self).wf(),
            final(self).context_stack@ == (if old(self).options.recover_from_errors {
                old(self).context_stack@.push(ctx)
            } else {
                old(self).context_stack@
            }),
            same_observable(*old(self), *final(self)),
            final(self).options == old(self).options,
            final(self).tokens@ == old(self).tokens@,
            final(self).ctx == old(self).ctx,
            final(self).state.paren_stack@ == old(self).state.paren_stack@,
    {
        if self.options.recover_from_errors {
            self.context_stack.push(ctx);
        }
    }

    /// Closes the innermost delimited construct when errors are recovered
    /// from, and returns it; `TopLevel` alone is never removed. With
    /// `enter_context` it balances as `law_push_pop_balanced` states.
    pub fn leave_context(&mut self) -> (r: Option<ParsingContext>)
        requires
            old(self).wf(),
        ensures
            final(self).wf(),
            old(self).options.recover_from_errors ==> popped(
                old(self).context_stack@,
                r,
                final(self).context_stack@,
            ),
            !old(self).options.recover_from_errors ==> r is None && final(self).context_stack@
                == old(self).context_stack@,
            same_observable(*old(self), *final(self)),
            final(self).options == old(self).options,
            final(self).tokens@ == old(self).tokens@,
            final(self).ctx == old(self).ctx,
            final(self).state.paren_stack@ == old(self).state.paren_stack@,
    {
        if self.options.recover_from_errors {
            self.context_stack.pop()
        } else {
            None
        }
    }

    /// Whether `ctx` is active anywhere in the context stack.
    pub fn in_context(&self, ctx: ParsingContext) -> (r: bool)
        ensures
            r == self.context_stack@.contains(ctx),
    {
        self.context_stack.is_in_context(ctx)
    }

    pub fn cur_token(&self) -> (r: Token)
        ensures
            r == self.token,
    {
        self.token
    }

    pub fn cur_kind(&self) -> (r: Kind)
        ensures
            r == self.token.kind,
    {
        self.token.kind
    }

    /// Whether the current token is of kind `kind`.
    pub fn at(&self, kind: Kind) -> (r: bool)
        ensures
            r == (self.token.kind == kind),
    {
        self.token.kind == kind
    }

    pub fn has_fatal_error(&self) -> (r: bool)
        ensures
            r == self.fatal_error is Some,
    {
        self.fatal_error.is_some()
    }

    /// Records a diagnostic. Only when errors are recovered from: otherwise
    /// the first error is fatal and nothing else is recorded.
    pub fn error(&mut self, d: Diagnostic)
        requires
            old(self).wf(),
            old(self).options.recover_from_errors,
        ensures
            final(self).wf(),
            final(self).errors@ == old(self).errors@.push(d),
            final(self).fatal_error == old(self).fatal_error,
            same_position(*old(self), *final(self)),
            same_frame(*old(self), *final(self)),
    {
        self.errors.push(d);
    }

    /// Keeps `d` as the fatal diagnostic, unless one is kept already; every
    /// loop stops on it. Only when errors are not recovered from: recovery
    /// never sets a fatal diagnostic.
    pub fn set_fatal_error(&mut self, d: Diagnostic)
        requires
            old(self).wf(),
            !old(self).options.recover_from_errors,
        ensures
            final(self).wf(),
            reported(*old(self), *final(self), d),
    {
        if self.fatal_error.is_none() {
            self.fatal_error = Some(FatalError { error: d, errors_len: self.errors.len() });
        }
    }

    /// Records `d` when errors are recovered from; otherwise makes it fatal.
    pub fn report(&mut self, d: Diagnostic)
        requires
            old(self).wf(),
        ensures
            final(self).wf(),
            reported(*old(self), *final(self), d),
    {
        if self.options.recover_from_errors {
            self.error(d);
        } else {
            self.set_fatal_error(d);
        }
    }

    /// Moves past the current token, read as `kind`; an escaped keyword is
    /// reported.
    fn advance(&mut self, kind: Kind)
        requires
            old(self).wf(),
        ensures
            final(self).wf(),
            stepped(*old(self), *final(self), kind),
    {
        proof {
            self.lemma_bounds();
        }
        if self.token.escaped && kind.is_any_keyword() {
            let span = self.token.span();
            self.report(Diagnostic::new(DiagnosticKind::EscapedKeyword, span));
        }
        self.prev_token_end = self.token.end;
        if self.pos < self.tokens.len() - 1 {
            self.pos = self.pos + 1;
        }
        self.token = self.tokens[self.pos];
        assert(self.errors@ =~= old(self).errors@ + old(self).escape_errors(kind));
    }

    /// Moves past the current token where it is of kind `kind`.
    pub fn eat(&mut self, kind: Kind) -> (r: bool)
        requires
            old(self).wf(),
        ensures
            final(self).wf(),
            r == (old(self).token.kind == kind),
            r ==> stepped(*old(self), *final(self), kind),
            !r ==> *final(self) == *old(self),
    {
        if self.at(kind) {
            self.advance(kind);
            return true;
        }
        false
    }

    /// Moves past the current token where it is of kind `kind`.
    pub fn bump(&mut self, kind: Kind)
        requires
            old(self).wf(),
        ensures
            final(self).wf(),
            old(self).token.kind == kind ==> stepped(*old(self), *final(self), kind),
            old(self).token.kind != kind ==> *final(self) == *old(self),
    {
        if self.at(kind) {
            self.advance(kind);
        }
    }

    /// Moves past the current token, whatever it is.
    pub fn bump_any(&mut self)
        requires
            old(self).wf(),
        ensures
            final(self).wf(),
            stepped(*old(self), *final(self), old(self).token.kind),
    {
        let kind = self.cur_kind();
        self.advance(kind);
    }

    /// Moves past the current token, read as `kind` (a keyword read as an
    /// identifier, say).
    pub fn bump_remap(&mut self, kind: Kind)
        requires
            old(self).wf(),
        ensures
            final(self).wf(),
            stepped(*old(self), *final(self), kind),
    {
        self.advance(kind);
    }

    /// Whether a semicolon may be inserted before the current token: it is
    /// `;`, `}` or end of input, or a line break precedes it.
    pub fn can_insert_semicolon(&self) -> (r: bool)
        ensures
            r == (self.token.kind == Kind::Semicolon || self.token.kind == Kind::RCurly
                || self.token.kind == Kind::Eof || self.token.on_new_line),
    {
        let token = self.cur_token();
        matches!(token.kind, Kind::Semicolon | Kind::RCurly | Kind::Eof) || token.on_new_line
    }

    /// Automatic semicolon insertion: consumes a `;`, accepts `}`, end of
    /// input or a line break silently, and otherwise reports a missing
    /// semicolon at the end of the previous token.
    pub fn asi(&mut self)
        requires
            old(self).wf(),
        ensures
            final(self).wf(),
            old(self).token.kind == Kind::Semicolon ==> stepped(
                *old(self),
                *final(self),
                Kind::Semicolon,
            ),
            old(self).token.kind != Kind::Semicolon && (old(self).token.kind == Kind::RCurly
                || old(self).token.kind == Kind::Eof || old(self).token.on_new_line)
                ==> *final(self) == *old(self),
            !(old(self).token.kind == Kind::Semicolon || old(self).token.kind == Kind::RCurly
                || old(self).token.kind == Kind::Eof || old(self).token.on_new_line)
                ==> reported(
                *old(self),
                *final(self),
                Diagnostic {
                    kind: DiagnosticKind::AutoSemicolonInsertion,
                    span: Span { start: old(self).prev_token_end, end: old(self).prev_token_end },
                },
            ),
    {
        if self.eat(Kind::Semicolon) || self.can_insert_semicolon() {
        } else {
            let span = Span::empty(self.prev_token_end);
            self.report(Diagnostic::new(DiagnosticKind::AutoSemicolonInsertion, span));
        }
    }

    /// The diagnostic for a missing `expected` at the current token.
    pub open spec fn expect_error(&self, expected: Kind) -> Diagnostic {
        Diagnostic {
            kind: DiagnosticKind::ExpectToken { expected, found: self.token.kind },
            span: self.token.span_of(),
        }
    }

    /// Reports that `expected` is missing at the current token.
    fn handle_expect_failure(&mut self, expected: Kind)
        requires
            old(self).wf(),
        ensures
            final(self).wf(),
            reported(*old(self), *final(self), old(self).expect_error(expected)),
    {
        let span = self.cur_token().span();
        let found = self.cur_kind();
        self.report(Diagnostic::new(DiagnosticKind::ExpectToken { expected, found }, span));
    }

    /// Reports a missing `kind` at the current token, without moving.
    pub fn expect_without_advance(&mut self, kind: Kind)
        requires
            old(self).wf(),
        ensures
            final(self).wf(),
            old(self).token.kind == kind ==> *final(self) == *old(self),
            old(self).token.kind != kind ==> reported(
                *old(self),
                *final(self),
                old(self).expect_error(kind),
            ),
    {
        if !self.at(kind) {
            self.handle_expect_failure(kind);
        }
    }
    /// Requires the current token to be `kind` and moves past it either way.
    /// When errors are recovered from, expecting `(` records the current
    /// token as an open parenthesis, whatever it is: a missing `(` is taken
    /// as inserted, as a missing `)` is by `expect_closing`.
    pub fn expect(&mut self, kind: Kind)
        requires
            old(self).wf(),
        ensures
            final(self).wf(),
            checked_step(
                *old(self),
                *final(self),
                kind,
                old(self).expect_error(kind),
                old(self).token.kind != kind,
            ),
            final(self).state.paren_stack@ == (if old(self).options.recover_from_errors && kind
                == Kind::LParen {
                old(self).state.paren_stack@.push(old(self).token.span_of())
            } else {
                old(self).state.paren_stack@
            }),
    {
        if self.options.recover_from_errors && kind == Kind::LParen {
            let span = self.cur_token().span();
            self.state.push_paren(span);
        }
        if !self.at(kind) {
            self.handle_expect_failure(kind);
        }
        self.advance(kind);
    }

    /// The fatal slot after reporting `d` in this state.
    pub open spec fn reported_fatal(&self, d: Diagnostic) -> Option<FatalError> {
        if self.options.recover_from_errors || self.fatal_error is Some {
            self.fatal_error
        } else {
            Some(FatalError { error: d, errors_len: self.errors@.len() as usize })
        }
    }

    /// The diagnostic for a missing closer `expected` of the construct
    /// opened at `opening`.
    pub open spec fn closing_error(&self, expected: Kind, opening: Span) -> Diagnostic {
        Diagnostic {
            kind: DiagnosticKind::ExpectClosing { expected, found: self.token.kind, opening },
            span: self.token.span_of(),
        }
    }

    /// Requires the closer `kind` of the construct opened at `opening` and
    /// moves past the current token either way. When errors are recovered
    /// from, a `)` closes the innermost open parenthesis, found or not.
    pub fn expect_closing(&mut self, kind: Kind, opening: Span)
        requires
            old(self).wf(),
        ensures
            final(self).wf(),
            checked_step(
                *old(self),
                *final(self),
                kind,
                old(self).closing_error(kind, opening),
                old(self).token.kind != kind,
            ),
            final(self).state.paren_stack@ == (if old(self).options.recover_from_errors && kind
                == Kind::RParen && old(self).state.paren_stack@.len() > 0 {
                old(self).state.paren_stack@.drop_last()
            } else {
                old(self).state.paren_stack@
            }),
    {
        let found_closing = self.at(kind);
        if self.options.recover_from_errors && kind == Kind::RParen {
            self.state.pop_paren();
        }
        if !found_closing {
            let span = self.cur_token().span();
            let found = self.cur_kind();
            self.report(
                Diagnostic::new(DiagnosticKind::ExpectClosing { expected: kind, found, opening }, span),
            );
        }
        self.advance(kind);
    }

    /// The diagnostic for a missing `:` of a conditional expression whose
    /// `?` is at `question`.
    pub open spec fn alternative_error(&self, question: Span) -> Diagnostic {
        Diagnostic {
            kind: DiagnosticKind::ExpectConditionalAlternative { found: self.token.kind, question },
            span: self.token.span_of(),
        }
    }

    /// Requires the `:` of a conditional expression whose `?` is at
    /// `question`, and moves past the current token either way.
    pub fn expect_conditional_alternative(&mut self, question: Span)
        requires
            old(self).wf(),
        ensures
            final(self).wf(),
            checked_step(
                *old(self),
                *final(self),
                old(self).token.kind,
                old(self).alternative_error(question),
                old(self).token.kind != Kind::Colon,
            ),
            final(self).state.paren_stack@ == old(self).state.paren_stack@,
    {
        if !self.at(Kind::Colon) {
            let span = self.cur_token().span();
            let found = self.cur_kind();
            self.report(
                Diagnostic::new(
                    DiagnosticKind::ExpectConditionalAlternative { found, question },
                    span,
                ),
            );
        }
        self.bump_any();
    }

    /// Saves the cursor, taking the fatal slot out: the speculative parse
    /// that follows starts with none.
    pub fn checkpoint(&mut self) -> (ck: ParserCheckpoint)
        requires
            old(self).wf(),
        ensures
            final(self).wf(),
            checkpointed(*old(self), *final(self), ck),
            final(self).can_rewind_to(ck),
    {
        let ck = ParserCheckpoint {
            lexer: self.pos,
            cur_token: self.token,
            prev_span_end: self.prev_token_end,
            errors_pos: self.errors.len(),
            fatal_error: self.fatal_error.take(),
        };
        ck
    }

    /// A checkpoint for a speculative parse; the same savepoint as `checkpoint`.
    pub fn checkpoint_with_error_recovery(&mut self) -> (ck: ParserCheckpoint)
        requires
            old(self).wf(),
        ensures
            final(self).wf(),
            checkpointed(*old(self), *final(self), ck),
            final(self).can_rewind_to(ck),
    {
        self.checkpoint()
    }

    /// Restores the cursor saved in `ck`: the diagnostics recorded since are
    /// dropped.
    pub fn rewind(&mut self, ck: ParserCheckpoint)
        requires
            old(self).wf(),
            old(self).can_rewind_to(ck),
        ensures
            final(self).wf(),
            rewound(*old(self), *final(self), ck),
            final(self).ctx == old(self).ctx,
    {
        self.pos = ck.lexer;
        self.token = ck.cur_token;
        self.prev_token_end = ck.prev_span_end;
        self.errors.truncate(ck.errors_pos);
        self.fatal_error = ck.fatal_error;
    }

    /// Ends a speculative parse begun by `checkpoint_with_error_recovery`,
    /// with the grammar parameters `ctx` of its start. Where it set no fatal
    /// diagnostic and recorded no diagnostic, its result stands and `true`
    /// comes back; otherwise the cursor and the parameters are restored and
    /// `false` comes back.
    pub fn finish_try_parse(&mut self, ck: ParserCheckpoint, ctx: Context) -> (r: bool)
        requires
            old(self).wf(),
            old(self).can_rewind_to(ck),
        ensures
            final(self).wf(),
            try_parse_finished(*old(self), *final(self), ck, ctx, r),
    {
        if self.fatal_error.is_none() && self.errors.len() == ck.errors_pos {
            true
        } else {
            self.ctx = ctx;
            self.rewind(ck);
            false
        }
    }

    /// Reports the oldest parenthesis left open, if any, and forgets them
    /// all. Only when errors are recovered from.
    pub fn check_unclosed_parens(&mut self)
        requires
            old(self).wf(),
        ensures
            final(self).wf(),
            same_position(*old(self), *final(self)),
            final(self).fatal_error == old(self).fatal_error,
            final(self).ctx == old(self).ctx,
            final(self).context_stack@ == old(self).context_stack@,
            !old(self).options.recover_from_errors || old(self).state.paren_stack@.len() == 0
                ==> final(self).errors@ == old(self).errors@ && final(self).state.paren_stack@
                == old(self).state.paren_stack@,
            old(self).options.recover_from_errors && old(self).state.paren_stack@.len() > 0
                ==> final(self).errors@ == old(self).errors@.push(
                Diagnostic {
                    kind: DiagnosticKind::UnclosedParen {
                        opening: old(self).state.paren_stack@[0],
                    },
                    span: old(self).token.span_of(),
                },
            ) && final(self).state.paren_stack@.len() == 0,
            // no parenthesis is left open afterwards, in either mode
            final(self).state.paren_stack@.len() == 0,
    {
        if !self.options.recover_from_errors {
            return;
        }
        if let Some(opening) = self.state.first_unclosed_paren() {
            let span = self.cur_token().span();
            self.error(Diagnostic::new(DiagnosticKind::UnclosedParen { opening }, span));
            self.state.clear_parens();
        }
    }
}

/// Speculative work `f` on a parser: whatever state it starts in, it leaves a
/// well-formed parser over the same tokens and options, with the diagnostics
/// it started with in front.
pub open spec fn speculative<T, F: FnOnce(ParserImpl) -> (ParserImpl, T)>(f: F) -> bool {
    &&& forall|q: ParserImpl| q.wf() ==> #[trigger] f.requires((q,))
    &&& forall|q: ParserImpl, out: (ParserImpl, T)|
        q.wf() && #[trigger] f.ensures((q,), out) ==> {
            &&& out.0.wf()
            &&& out.0.tokens@ == q.tokens@
            &&& out.0.source_len == q.source_len
            &&& out.0.options == q.options
            &&& extends_errors(q, out.0)
        }
}

impl ParserImpl {
    /// Runs `f` once, from a checkpoint of this parser, and hands back its
    /// answer with the parser rewound to the checkpoint: the token, the end
    /// of the previous token, the diagnostics, the fatal slot and the lexer
    /// position are as they were.
    pub fn lookahead<U, F: FnOnce(ParserImpl) -> (ParserImpl, U)>(self, f: F) -> (r: (
        ParserImpl,
        U,
    ))
        requires
            self.wf(),
            speculative(f),
        ensures
            r.0.wf(),
            same_observable(self, r.0),
            exists|q: ParserImpl, m: ParserImpl|
                checkpointed(self, q, self.checkpoint_of()) && q.wf() && f.ensures(
                    (q,),
                    (m, r.1),
                ),
    {
        let mut p = self;
        let ck = p.checkpoint();
        let ghost q = p;
        let out = f(p);
        let ghost out_g = out;
        let (mut m, answer) = out;
        m.rewind(ck);
        proof {
            assert(m.errors@ =~= self.errors@);
        }
        let r = (m, answer);
        proof {
            assert(f.ensures((q,), (out_g.0, r.1)));
        }
        r
    }

    /// Runs `f` once, from a checkpoint of this parser. Where it set no fatal
    /// diagnostic and recorded no diagnostic, its result is kept with the
    /// parser it left; otherwise the parser is rewound to the checkpoint,
    /// grammar parameters included, and `None` comes back.
    pub fn try_parse<T, F: FnOnce(ParserImpl) -> (ParserImpl, T)>(self, f: F) -> (r: (
        ParserImpl,
        Option<T>,
    ))
        requires
            self.wf(),
            speculative(f),
        ensures
            r.0.wf(),
            r.1 is Some ==> r.0.errors@ == self.errors@ && r.0.fatal_error is None,
            r.1 is None ==> same_observable(self, r.0) && r.0.ctx == self.ctx,
            exists|q: ParserImpl, m: ParserImpl, v: T|
                checkpointed(self, q, self.checkpoint_of()) && q.wf() && f.ensures((q,), (m, v))
                    && (r.1 is Some ==> r.1 == Some(v) && r.0 == m),
    {
        let mut p = self;
        let ctx = p.ctx;
        let ck = p.checkpoint_with_error_recovery();
        let ghost q = p;
        let (mut m, value) = f(p);
        if m.finish_try_parse(ck, ctx) {
            proof {
                assert(m.errors@ =~= self.errors@);
            }
            (m, Some(value))
        } else {
            proof {
                assert(m.errors@ =~= self.errors@);
            }
            (m, None)
        }
    }
}

} // verus!
