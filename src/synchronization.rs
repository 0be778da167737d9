//! Skip-or-abort decisions after a syntax error.
//!
//! When a delimited construct meets a token that cannot continue it, the
//! parser either skips that token and stays in the construct, or leaves the
//! construct so that an enclosing production takes the token. The token is
//! left for an enclosing construct whenever one of them can use it: it ends
//! that construct, or it can begin a member of it.
use vstd::prelude::*;

use crate::context::ParsingContext;
use crate::cursor::{ParserImpl, reported, same_frame, same_position, stepped};
use crate::diagnostics::{Diagnostic, DiagnosticKind};
use crate::recovery::token_escape;
use crate::token::{Kind, Token};

verus! {

/// What to do with a token that the current construct cannot use.
#[derive(Debug, Clone, Copy, PartialEq, Eq, Structural)]
pub enum RecoveryDecision {
    /// The token was skipped: go on with the next one in the same construct.
    Skip,
    /// Leave the construct: the token belongs to an enclosing one.
    Abort,
}

/// Whether `k` ends the construct `ctx`.
pub open spec fn terminates(ctx: ParsingContext, k: Kind) -> bool {
    k == Kind::Eof || match ctx {
        ParsingContext::TopLevel => false,
        ParsingContext::BlockStatements | ParsingContext::FunctionBody => k == Kind::RCurly,
        ParsingContext::Parameters => k == Kind::RParen || k == Kind::LCurly || k
            == Kind::Extends || k == Kind::Implements,
        ParsingContext::ArgumentExpressions => k == Kind::RParen || k == Kind::Semicolon,
        ParsingContext::ClassMembers
        | ParsingContext::TypeMembers
        | ParsingContext::EnumMembers
        | ParsingContext::ObjectLiteralMembers => k == Kind::RCurly,
        ParsingContext::ArrayLiteralMembers => k == Kind::RBrack,
        ParsingContext::SwitchClauses => k == Kind::RCurly || k == Kind::Case || k
            == Kind::Default,
        ParsingContext::ImportSpecifiers | ParsingContext::ExportSpecifiers => k == Kind::RCurly
            || k == Kind::From || k == Kind::Semicolon,
        ParsingContext::TypeParameters => k == Kind::RAngle || k == Kind::LCurly || k
            == Kind::Extends,
        ParsingContext::TypeArguments => k == Kind::RAngle || k == Kind::RParen || k
            == Kind::LCurly,
        ParsingContext::TypeAnnotation => k == Kind::Eq || k == Kind::Semicolon || k
            == Kind::Comma || k == Kind::RParen || k == Kind::RCurly,
        ParsingContext::JsxAttributes => k == Kind::RAngle || k == Kind::Slash,
        ParsingContext::JsxChildren => k == Kind::LAngle,
    }
}

/// Whether `k` can begin an expression: a literal, `this`, `super`, a
/// prefix operator, `function`, `class`, `new`, `import` (a dynamic import
/// or `import.meta`), an opening bracket, `<`, or an identifier (contextual keywords and words reserved only in strict mode
/// included; reserved words are not).
pub open spec fn expression_start(k: Kind) -> bool {
    ||| matches!(
        k,
        Kind::This | Kind::Super | Kind::Null | Kind::True | Kind::False | Kind::Str
            | Kind::NoSubstitutionTemplate | Kind::TemplateHead | Kind::Decimal | Kind::Binary
            | Kind::Octal | Kind::Hex | Kind::BigInt | Kind::RegExp | Kind::LParen | Kind::LBrack
            | Kind::LCurly | Kind::Function | Kind::Class | Kind::New | Kind::Slash
            | Kind::Plus | Kind::Minus | Kind::Bang | Kind::Tilde | Kind::Plus2
            | Kind::Minus2 | Kind::Typeof | Kind::Void | Kind::Delete | Kind::Await
            | Kind::LAngle | Kind::Import
    )
    ||| k.ident()
}

/// Whether `k` can begin a statement: a declaration, a statement keyword,
/// a block, a decorator, or an expression.
pub open spec fn statement_start(k: Kind) -> bool {
    ||| matches!(
        k,
        Kind::Let | Kind::Const | Kind::Var | Kind::Function | Kind::Class | Kind::Enum
            | Kind::If | Kind::For | Kind::While | Kind::Do | Kind::Switch | Kind::Return
            | Kind::Break | Kind::Continue | Kind::Throw | Kind::Try | Kind::Debugger
            | Kind::With | Kind::Import | Kind::LCurly | Kind::At
    )
    ||| expression_start(k)
}

/// Whether `k` can begin a class member.
pub open spec fn class_member_start(k: Kind) -> bool {
    ||| matches!(
        k,
        Kind::Public | Kind::Private | Kind::Protected | Kind::Static | Kind::Readonly
            | Kind::Async | Kind::Get | Kind::Setter | Kind::Star | Kind::LBrack | Kind::At
            | Kind::Accessor
    )
    ||| k.ident_or_keyword()
}

/// Whether `k` can begin a member of `ctx`; the statements of a block and of
/// a function body alike. After an error (`in_recovery`) a
/// bare `;` is too ambiguous to count as the start of a statement or class
/// member.
pub open spec fn element_start(ctx: ParsingContext, k: Kind, in_recovery: bool) -> bool {
    match ctx {
        ParsingContext::BlockStatements | ParsingContext::FunctionBody => statement_start(k) || (
        !in_recovery && k == Kind::Semicolon),
        ParsingContext::Parameters => k == Kind::Dot3 || k == Kind::LCurly || k == Kind::LBrack
            || k.ident_or_keyword(),
        ParsingContext::ArgumentExpressions | ParsingContext::ArrayLiteralMembers => k
            == Kind::Dot3 || expression_start(k),
        ParsingContext::ClassMembers => class_member_start(k) || (!in_recovery && k
            == Kind::Semicolon),
        ParsingContext::TypeMembers => k.ident_or_keyword() || k == Kind::LBrack || k
            == Kind::LParen || k == Kind::New || k == Kind::Readonly,
        ParsingContext::EnumMembers => k.ident_or_keyword() || k == Kind::LBrack,
        ParsingContext::ObjectLiteralMembers => k == Kind::LBrack || k == Kind::Star || k
            == Kind::Dot3 || k.ident_or_keyword(),
        ParsingContext::SwitchClauses => k == Kind::Case || k == Kind::Default,
        ParsingContext::ImportSpecifiers | ParsingContext::ExportSpecifiers => k.ident_or_keyword(),
        _ => false,
    }
}

/// Whether one of the active constructs `stack` can use `k`: it ends that
/// construct, or begins a member of it.
pub open spec fn meaningful_in(stack: Seq<ParsingContext>, k: Kind) -> bool {
    exists|i: int|
        0 <= i < stack.len() && (terminates(#[trigger] stack[i], k) || element_start(
            stack[i],
            k,
            true,
        ))
}

/// The diagnostic for a token `t` that can begin no member of `ctx`.
pub open spec fn member_diagnostic(ctx: ParsingContext, t: Token) -> Diagnostic {
    Diagnostic {
        kind: DiagnosticKind::ExpectMember { context: ctx, found: t.kind },
        span: t.span_of(),
    }
}

/// The diagnostics that skipping the tokens at `i` up to `j` in a member
/// list of `ctx` records: for each, the member error, then an escaped
/// keyword if it is one.
pub open spec fn member_errors(toks: Seq<Token>, ctx: ParsingContext, i: int, j: int) -> Seq<
    Diagnostic,
>
    decreases j - i,
{
    if j <= i {
        Seq::empty()
    } else {
        member_errors(toks, ctx, i, j - 1) + seq![member_diagnostic(ctx, toks[j - 1])]
            + token_escape(toks[j - 1])
    }
}

/// A token that a member list of `ctx` skips, with the active constructs
/// `stack`: it begins no member, ends nothing, and no active construct can
/// use it.
pub open spec fn skippable(ctx: ParsingContext, stack: Seq<ParsingContext>, k: Kind) -> bool {
    !element_start(ctx, k, false) && !terminates(ctx, k) && !meaningful_in(stack, k)
}

impl ParserImpl {
    /// Whether the current token ends the construct `ctx`. Always `false`
    /// when errors are not recovered from.
    pub fn is_context_terminator(&self, ctx: ParsingContext) -> (r: bool)
        ensures
            r == (self.options.recover_from_errors && terminates(ctx, self.token.kind)),
    {
        if !self.options.recover_from_errors {
            return false;
        }
        match ctx {
            ParsingContext::TopLevel => self.at(Kind::Eof),
            ParsingContext::BlockStatements | ParsingContext::FunctionBody => {
                self.at(Kind::RCurly) || self.at(Kind::Eof)
            },
            ParsingContext::Parameters => {
                self.at(Kind::RParen) || self.at(Kind::LCurly) || self.at(Kind::Extends)
                    || self.at(Kind::Implements) || self.at(Kind::Eof)
            },
            ParsingContext::ArgumentExpressions => {
                self.at(Kind::RParen) || self.at(Kind::Semicolon) || self.at(Kind::Eof)
            },
            ParsingContext::ClassMembers
            | ParsingContext::TypeMembers
            | ParsingContext::EnumMembers
            | ParsingContext::ObjectLiteralMembers => self.at(Kind::RCurly) || self.at(Kind::Eof),
            ParsingContext::ArrayLiteralMembers => self.at(Kind::RBrack) || self.at(Kind::Eof),
            ParsingContext::SwitchClauses => {
                self.at(Kind::RCurly) || self.at(Kind::Case) || self.at(Kind::Default) || self.at(
                    Kind::Eof,
                )
            },
            ParsingContext::ImportSpecifiers | ParsingContext::ExportSpecifiers => {
                self.at(Kind::RCurly) || self.at(Kind::From) || self.at(Kind::Semicolon)
                    || self.at(Kind::Eof)
            },
            ParsingContext::TypeParameters => {
                self.at(Kind::RAngle) || self.at(Kind::LCurly) || self.at(Kind::Extends)
                    || self.at(Kind::Eof)
            },
            ParsingContext::TypeArguments => {
                self.at(Kind::RAngle) || self.at(Kind::RParen) || self.at(Kind::LCurly)
                    || self.at(Kind::Eof)
            },
            ParsingContext::TypeAnnotation => {
                self.at(Kind::Eq) || self.at(Kind::Semicolon) || self.at(Kind::Comma) || self.at(
                    Kind::RParen,
                ) || self.at(Kind::RCurly) || self.at(Kind::Eof)
            },
            ParsingContext::JsxAttributes => {
                self.at(Kind::RAngle) || self.at(Kind::Slash) || self.at(Kind::Eof)
            },
            ParsingContext::JsxChildren => self.at(Kind::LAngle) || self.at(Kind::Eof),
        }
    }

    fn is_start_of_statement_recovery(&self) -> (r: bool)
        ensures
            r == statement_start(self.token.kind),
    {
        matches!(
            self.cur_kind(),
            Kind::Let | Kind::Const | Kind::Var | Kind::Function | Kind::Class | Kind::Enum
                | Kind::If | Kind::For | Kind::While | Kind::Do | Kind::Switch | Kind::Return
                | Kind::Break | Kind::Continue | Kind::Throw | Kind::Try | Kind::Debugger
                | Kind::With | Kind::Import | Kind::LCurly | Kind::At
        ) || self.is_start_of_expression_recovery()
    }

    fn is_start_of_expression_recovery(&self) -> (r: bool)
        ensures
            r == expression_start(self.token.kind),
    {
        matches!(
            self.cur_kind(),
            Kind::This | Kind::Super | Kind::Null | Kind::True | Kind::False | Kind::Str
                | Kind::NoSubstitutionTemplate | Kind::TemplateHead | Kind::Decimal
                | Kind::Binary | Kind::Octal | Kind::Hex | Kind::BigInt | Kind::RegExp
                | Kind::LParen | Kind::LBrack | Kind::LCurly | Kind::Function | Kind::Class
                | Kind::New | Kind::Slash | Kind::Plus | Kind::Minus | Kind::Bang | Kind::Tilde
                | Kind::Plus2 | Kind::Minus2 | Kind::Typeof | Kind::Void | Kind::Delete
                | Kind::Await | Kind::LAngle | Kind::Import
        ) || self.cur_kind().is_identifier()
    }

    fn is_start_of_class_member(&self) -> (r: bool)
        ensures
            r == class_member_start(self.token.kind),
    {
        matches!(
            self.cur_kind(),
            Kind::Public | Kind::Private | Kind::Protected | Kind::Static | Kind::Readonly
                | Kind::Async | Kind::Get | Kind::Setter | Kind::Star | Kind::LBrack | Kind::At
                | Kind::Accessor
        ) || self.cur_kind().is_identifier_or_keyword()
    }

    /// Whether the current token can begin a member of `ctx`. Always `false`
    /// when errors are not recovered from.
    pub fn is_context_element_start(&self, ctx: ParsingContext, in_error_recovery: bool) -> (r:
        bool)
        ensures
            r == (self.options.recover_from_errors && element_start(
                ctx,
                self.token.kind,
                in_error_recovery,
            )),
    {
        if !self.options.recover_from_errors {
            return false;
        }
        match ctx {
            ParsingContext::BlockStatements | ParsingContext::FunctionBody => {
                if in_error_recovery {
                    self.is_start_of_statement_recovery()
                } else {
                    self.is_start_of_statement_recovery() || self.at(Kind::Semicolon)
                }
            },
            ParsingContext::Parameters => {
                self.at(Kind::Dot3) || self.at(Kind::LCurly) || self.at(Kind::LBrack)
                    || self.cur_kind().is_identifier_or_keyword()
            },
            ParsingContext::ArgumentExpressions | ParsingContext::ArrayLiteralMembers => {
                self.at(Kind::Dot3) || self.is_start_of_expression_recovery()
            },
            ParsingContext::ClassMembers => {
                if in_error_recovery {
                    self.is_start_of_class_member()
                } else {
                    self.is_start_of_class_member() || self.at(Kind::Semicolon)
                }
            },
            ParsingContext::TypeMembers => {
                self.cur_kind().is_identifier_or_keyword() || self.at(Kind::LBrack) || self.at(
                    Kind::LParen,
                ) || self.at(Kind::New) || self.at(Kind::Readonly)
            },
            ParsingContext::EnumMembers => {
                self.cur_kind().is_identifier_or_keyword() || self.at(Kind::LBrack)
            },
            ParsingContext::ObjectLiteralMembers => {
                self.at(Kind::LBrack) || self.at(Kind::Star) || self.at(Kind::Dot3)
                    || self.cur_kind().is_identifier_or_keyword()
            },
            ParsingContext::SwitchClauses => self.at(Kind::Case) || self.at(Kind::Default),
            ParsingContext::ImportSpecifiers | ParsingContext::ExportSpecifiers => {
                self.cur_kind().is_identifier_or_keyword()
            },
            _ => false,
        }
    }

    /// Whether some active construct can use the current token. Always
    /// `false` when errors are not recovered from.
    pub fn is_in_some_parsing_context(&self) -> (r: bool)
        ensures
            r == (self.options.recover_from_errors && meaningful_in(
                self.context_stack@,
                self.token.kind,
            )),
    {
        if !self.options.recover_from_errors {
            return false;
        }
        let contexts = self.context_stack.active_contexts();
        let k = self.token.kind;
        let mut i: usize = 0;
        while i < contexts.len()
            invariant
                contexts@ == self.context_stack@,
                k == self.token.kind,
                self.options.recover_from_errors,
                0 <= i <= contexts@.len(),
                forall|j: int|
                    0 <= j < i ==> !(terminates(#[trigger] contexts@[j], k) || element_start(
                        contexts@[j],
                        k,
                        true,
                    )),
            decreases contexts@.len() - i,
        {
            let ctx = contexts[i];
            if self.is_context_terminator(ctx) {
                return true;
            }
            if self.is_context_element_start(ctx, true) {
                return true;
            }
            i = i + 1;
        }
        false
    }

    /// Decides, after an error in the construct `ctx`, whether to skip the
    /// current token or to leave the construct. Leaves it when errors are not
    /// recovered from, when the token ends `ctx`, and when some active
    /// construct can use the token; otherwise moves past the token.
    pub fn synchronize_on_error(&mut self, ctx: ParsingContext) -> (r: RecoveryDecision)
        requires
            old(self).wf(),
        ensures
            final(self).wf(),
            r == (if old(self).options.recover_from_errors && !terminates(
                ctx,
                old(self).token.kind,
            ) && !meaningful_in(old(self).context_stack@, old(self).token.kind) {
                RecoveryDecision::Skip
            } else {
                RecoveryDecision::Abort
            }),
            r == RecoveryDecision::Abort ==> *final(self) == *old(self),
            r == RecoveryDecision::Skip ==> stepped(*old(self), *final(self), old(self).token.kind),
            r == RecoveryDecision::Skip ==> final(self).token.start > old(self).token.start
                && final(self).pos == old(self).pos + 1,
    {
        if !self.options.recover_from_errors {
            return RecoveryDecision::Abort;
        }
        if self.is_context_terminator(ctx) {
            return RecoveryDecision::Abort;
        }
        if self.is_in_some_parsing_context() {
            return RecoveryDecision::Abort;
        }
        proof {
            self.lemma_not_at_end_when_meaningless();
            self.lemma_bounds();
        }
        let ghost before = *self;
        self.bump_any();
        assert(before.next_pos() == before.pos + 1);
        RecoveryDecision::Skip
    }

    /// End of input ends the bottom construct, so a token that no active
    /// construct can use is not the end of input.
    proof fn lemma_not_at_end_when_meaningless(&self)
        requires
            self.wf(),
            !meaningful_in(self.context_stack@, self.token.kind),
        ensures
            !self.at_end(),
            self.token.kind != Kind::Eof,
    {
        if self.token.kind == Kind::Eof {
            assert(terminates(self.context_stack@[0], self.token.kind));
        }
        self.lemma_bounds();
    }
    /// The diagnostic for a current token that can begin no member of `ctx`.
    pub open spec fn member_error(&self, ctx: ParsingContext) -> Diagnostic {
        Diagnostic {
            kind: DiagnosticKind::ExpectMember { context: ctx, found: self.token.kind },
            span: self.token.span_of(),
        }
    }

    /// The recovery step of a member list of `ctx` at a token that can begin
    /// no member: reports the token, then skips it or leaves the construct as
    /// `synchronize_on_error` decides.
    pub fn recover_unexpected_member(&mut self, ctx: ParsingContext) -> (r: RecoveryDecision)
        requires
            old(self).wf(),
        ensures
            final(self).wf(),
            same_frame(*old(self), *final(self)),
            r == (if old(self).options.recover_from_errors && !terminates(
                ctx,
                old(self).token.kind,
            ) && !meaningful_in(old(self).context_stack@, old(self).token.kind) {
                RecoveryDecision::Skip
            } else {
                RecoveryDecision::Abort
            }),
            r == RecoveryDecision::Abort ==> reported(
                *old(self),
                *final(self),
                old(self).member_error(ctx),
            ),
            r == RecoveryDecision::Skip ==> final(self).errors@ == old(self).errors@.push(
                old(self).member_error(ctx),
            ) + old(self).escape_errors(old(self).token.kind) && final(self).pos == old(self).pos
                + 1 && final(self).token.start > old(self).token.start && final(self).fatal_error
                == old(self).fatal_error,
    {
        let span = self.cur_token().span();
        let found = self.cur_kind();
        self.report(Diagnostic::new(DiagnosticKind::ExpectMember { context: ctx, found }, span));
        self.synchronize_on_error(ctx)
    }

    /// Brings a member list of `ctx` to a token where a member can begin, or
    /// to one where the construct is to be left. At a token that ends `ctx`
    /// the list is left with nothing reported. Each other token that can
    /// begin no member is reported once and then skipped, unless some active
    /// construct can use it, in which case it stays, reported, and the
    /// construct is left. `true` where a member can be parsed at the current
    /// token.
    pub fn synchronize_list(&mut self, ctx: ParsingContext) -> (r: bool)
        requires
            old(self).wf(),
            old(self).options.recover_from_errors,
        ensures
            final(self).wf(),
            same_frame(*old(self), *final(self)),
            final(self).fatal_error == old(self).fatal_error,
            old(self).pos <= final(self).pos,
            final(self).errors@ == old(self).errors@ + member_errors(
                old(self).tokens@,
                ctx,
                old(self).pos as int,
                final(self).pos as int,
            ) + (if !r && !terminates(ctx, final(self).token.kind) {
                seq![member_diagnostic(ctx, final(self).token)]
            } else {
                Seq::empty()
            }),
            forall|i: int|
                old(self).pos <= i < final(self).pos ==> skippable(
                    ctx,
                    old(self).context_stack@,
                    (#[trigger] old(self).tokens@[i]).kind,
                ),
            r == (old(self).fatal_error is None && element_start(ctx, final(self).token.kind, false)),
            !r ==> old(self).fatal_error is Some || terminates(ctx, final(self).token.kind)
                || meaningful_in(old(self).context_stack@, final(self).token.kind),
            // a well-formed member that follows one bad token is reached with
            // a single diagnostic
            old(self).fatal_error is None && !element_start(ctx, old(self).token.kind, false)
                && !terminates(ctx, old(self).token.kind) && !meaningful_in(
                old(self).context_stack@,
                old(self).token.kind,
            ) && element_start(ctx, old(self).tokens@[old(self).pos + 1].kind, false) ==> {
                &&& r
                &&& final(self).pos == old(self).pos + 1
                &&& final(self).errors@ == old(self).errors@.push(old(self).member_error(ctx))
                    + old(self).escape_errors(old(self).token.kind)
            },
    {
        if self.has_fatal_error() {
            return false;
        }
        loop
            invariant
                self.wf(),
                self.options.recover_from_errors,
                same_frame(*old(self), *self),
                self.fatal_error is None,
                old(self).fatal_error is None,
                old(self).pos <= self.pos,
                self.errors@ == old(self).errors@ + member_errors(
                    old(self).tokens@,
                    ctx,
                    old(self).pos as int,
                    self.pos as int,
                ),
                forall|i: int|
                    old(self).pos <= i < self.pos ==> skippable(
                        ctx,
                        old(self).context_stack@,
                        (#[trigger] old(self).tokens@[i]).kind,
                    ),
                self.pos == old(self).pos ==> *self == *old(self),
                !element_start(ctx, old(self).token.kind, false) && !terminates(
                    ctx,
                    old(self).token.kind,
                ) && !meaningful_in(old(self).context_stack@, old(self).token.kind)
                    && element_start(ctx, old(self).tokens@[old(self).pos + 1].kind, false)
                    ==> self.pos <= old(self).pos + 1,
                self.pos == old(self).pos + 1 && !element_start(ctx, old(self).token.kind, false)
                    ==> self.errors@ == old(self).errors@.push(old(self).member_error(ctx))
                    + old(self).escape_errors(old(self).token.kind),
            decreases self.tokens@.len() - self.pos,
        {
            if self.is_context_element_start(ctx, false) {
                return true;
            }
            if self.is_context_terminator(ctx) {
                return false;
            }
            let ghost before = self.errors@;
            let ghost j = self.pos as int;
            let decision = self.recover_unexpected_member(ctx);
            let ghost toks = old(self).tokens@;
            match decision {
                RecoveryDecision::Skip => {
                    assert(member_errors(toks, ctx, old(self).pos as int, j + 1) == member_errors(
                        toks,
                        ctx,
                        old(self).pos as int,
                        j,
                    ) + seq![member_diagnostic(ctx, toks[j])] + token_escape(toks[j]));
                    assert(self.errors@ =~= old(self).errors@ + member_errors(
                        toks,
                        ctx,
                        old(self).pos as int,
                        j + 1,
                    ));
                },
                RecoveryDecision::Abort => {
                    assert(self.errors@ =~= before + seq![member_diagnostic(ctx, self.token)]);
                    return false;
                },
            }
        }
    }
}

} // verus!
