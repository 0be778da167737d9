//! Placeholders for missing or malformed parts of the tree, and the token
//! skipping that goes with them. Every placeholder carries the real span of
//! the tokens it stands for.
use vstd::prelude::*;

use crate::cursor::{ParserImpl, reported, same_frame};
use crate::diagnostics::{Diagnostic, DiagnosticKind};
use crate::token::{Kind, Span, Token};

verus! {

/// The name a placeholder identifier is given.
#[derive(Debug, Clone, Copy, PartialEq, Eq, Structural)]
pub enum PlaceholderName {
    /// `e`: the binding of a catch clause whose parameter is malformed.
    CatchBinding,
    /// `__invalid_param__`: a formal parameter that could not be parsed.
    InvalidParameter,
    /// `__computed__`: a computed enum member name.
    ComputedEnumMember,
    /// `__template__`: a template literal used as an enum member name.
    TemplateEnumMember,
    /// `_` followed by the digits: a numeric enum member name.
    NumericEnumMember,
}

/// A placeholder identifier and the span of the tokens it replaces.
#[derive(Debug, Clone, Copy, PartialEq, Eq, Structural)]
pub struct Placeholder {
    pub name: PlaceholderName,
    pub span: Span,
}

/// The bytes of the name of `p`, whose span lies in `source`.
pub open spec fn placeholder_text(p: Placeholder, source: Seq<u8>) -> Seq<u8> {
    match p.name {
        PlaceholderName::CatchBinding => seq![101u8],
        PlaceholderName::InvalidParameter => invalid_param_name(),
        PlaceholderName::ComputedEnumMember => underscored(computed_word()),
        PlaceholderName::TemplateEnumMember => underscored(template_word()),
        PlaceholderName::NumericEnumMember => seq![95u8] + source.subrange(
            p.span.start as int,
            p.span.end as int,
        ),
    }
}

/// `__` + `w` + `__`.
pub open spec fn underscored(w: Seq<u8>) -> Seq<u8> {
    seq![95u8, 95u8] + w + seq![95u8, 95u8]
}

/// `computed`.
pub open spec fn computed_word() -> Seq<u8> {
    seq![99u8, 111u8, 109u8, 112u8, 117u8, 116u8, 101u8, 100u8]
}

/// `template`.
pub open spec fn template_word() -> Seq<u8> {
    seq![116u8, 101u8, 109u8, 112u8, 108u8, 97u8, 116u8, 101u8]
}

/// `__invalid_param__`.
pub open spec fn invalid_param_name() -> Seq<u8> {
    underscored(seq![105u8, 110u8, 118u8, 97u8, 108u8, 105u8, 100u8, 95u8, 112u8, 97u8, 114u8, 97u8, 109u8])
}

fn push_all(out: &mut Vec<u8>, bytes: &[u8])
    ensures
        final(out)@ == old(out)@ + bytes@,
{
    let mut i: usize = 0;
    while i < bytes.len()
        invariant
            0 <= i <= bytes@.len(),
            out@ == old(out)@ + bytes@.take(i as int),
        decreases bytes@.len() - i,
    {
        out.push(bytes[i]);
        i = i + 1;
        assert(out@ =~= old(out)@ + bytes@.take(i as int));
    }
    assert(bytes@.take(bytes@.len() as int) =~= bytes@);
}

impl Placeholder {
    /// The bytes of the placeholder's name.
    pub fn text(&self, source: &[u8]) -> (r: Vec<u8>)
        requires
            self.span.within(source@.len()),
        ensures
            r@ == placeholder_text(*self, source@),
    {
        let mut out: Vec<u8> = Vec::new();
        match self.name {
            PlaceholderName::CatchBinding => {
                out.push(101u8);
                assert(out@ =~= seq![101u8]);
            },
            PlaceholderName::InvalidParameter => {
                let w: [u8; 17] = [
                    95u8, 95u8, 105u8, 110u8, 118u8, 97u8, 108u8, 105u8, 100u8, 95u8, 112u8, 97u8,
                    114u8, 97u8, 109u8, 95u8, 95u8,
                ];
                push_all(&mut out, w.as_slice());
                assert(out@ =~= invalid_param_name());
            },
            PlaceholderName::ComputedEnumMember => {
                let w: [u8; 12] = [
                    95u8, 95u8, 99u8, 111u8, 109u8, 112u8, 117u8, 116u8, 101u8, 100u8, 95u8, 95u8,
                ];
                push_all(&mut out, w.as_slice());
                assert(out@ =~= underscored(computed_word()));
            },
            PlaceholderName::TemplateEnumMember => {
                let w: [u8; 12] = [
                    95u8, 95u8, 116u8, 101u8, 109u8, 112u8, 108u8, 97u8, 116u8, 101u8, 95u8, 95u8,
                ];
                push_all(&mut out, w.as_slice());
                assert(out@ =~= underscored(template_word()));
            },
            PlaceholderName::NumericEnumMember => {
                out.push(95u8);
                let digits = vstd::slice::slice_subrange(
                    source,
                    self.span.start as usize,
                    self.span.end as usize,
                );
                push_all(&mut out, digits);
                assert(out@ =~= seq![95u8] + source@.subrange(
                    self.span.start as int,
                    self.span.end as int,
                ));
            },
        }
        out
    }
}

/// The placeholder an enum member name of kind `k` at `span` gets, where
/// the kind is not allowed there: numeric literals and templates.
pub open spec fn enum_member_placeholder(k: Kind, span: Span) -> Option<Placeholder> {
    if k.number() {
        Some(Placeholder { name: PlaceholderName::NumericEnumMember, span })
    } else if k == Kind::NoSubstitutionTemplate || k == Kind::TemplateHead {
        Some(Placeholder { name: PlaceholderName::TemplateEnumMember, span })
    } else {
        None
    }
}

/// The diagnostic for an enum member name of kind `k` at `span`.
pub open spec fn enum_member_name_error(k: Kind, span: Span) -> Diagnostic {
    if k.number() {
        Diagnostic { kind: DiagnosticKind::EnumMemberNumericName, span }
    } else {
        Diagnostic { kind: DiagnosticKind::ComputedEnumMemberName, span }
    }
}

/// The form of the expression of a computed enum member name `[e]`.
#[derive(Debug, Clone, Copy, PartialEq, Eq, Structural)]
pub enum ComputedName {
    StringLiteral,
    NoSubstitutionTemplate,
    NumericLiteral,
    /// Any other expression.
    Other,
}

/// Where a function stands, which decides whether it needs a body.
#[derive(Debug, Clone, Copy, PartialEq, Eq, Structural)]
pub enum FunctionKind {
    Declaration,
    Expression,
    ObjectMethod,
    ClassMethod,
    Constructor,
    /// A `declare function` or an overload signature.
    TSDeclaration,
}

/// The index of the first `)` or end of input at or after `i` in `toks`.
pub open spec fn close_paren_at(toks: Seq<Token>, i: int) -> int
    decreases toks.len() - i,
{
    if i >= toks.len() - 1 || toks[i].kind == Kind::RParen || toks[i].kind == Kind::Eof {
        i
    } else {
        close_paren_at(toks, i + 1)
    }
}

/// The diagnostic that moving past `t` records, when errors are recovered
/// from: an escaped keyword.
pub open spec fn token_escape(t: Token) -> Seq<Diagnostic> {
    if t.escaped && t.kind.keyword() {
        seq![Diagnostic { kind: DiagnosticKind::EscapedKeyword, span: t.span_of() }]
    } else {
        Seq::empty()
    }
}

/// The diagnostics that moving past the tokens at `i` up to `j` records,
/// when errors are recovered from.
pub open spec fn skip_escapes(toks: Seq<Token>, i: int, j: int) -> Seq<Diagnostic>
    decreases j - i,
{
    if j <= i {
        Seq::empty()
    } else {
        skip_escapes(toks, i, j - 1) + token_escape(toks[j - 1])
    }
}

impl ParserImpl {
    /// At an enum member name that is a numeric literal or a template:
    /// reports it, moves past it and, when errors are recovered from, returns
    /// the placeholder identifier (`_123`, `__template__`) that replaces it.
    /// Without recovery the diagnostic is fatal and `None` comes back. At any
    /// other token nothing happens and `None` comes back.
    pub fn recover_enum_member_name(&mut self) -> (r: Option<Placeholder>)
        requires
            old(self).wf(),
        ensures
            final(self).wf(),
            ({
                let k = old(self).token.kind;
                let span = old(self).token.span_of();
                &&& enum_member_placeholder(k, span) is None ==> *final(self) == *old(self)
                    && r is None
                &&& enum_member_placeholder(k, span) is Some && old(self).options.recover_from_errors
                    ==> r == enum_member_placeholder(k, span) && final(self).errors@ == old(self).errors@.push(enum_member_name_error(k, span)) + old(self).escape_errors(k)
                    && final(self).pos == old(self).next_pos() && final(self).fatal_error == old(self).fatal_error
                &&& enum_member_placeholder(k, span) is Some && !old(self).options.recover_from_errors
                    ==> r is None && final(self).errors@ == old(self).errors@ && final(self).fatal_error == old(self).reported_fatal(enum_member_name_error(k, span))
            }),
            same_frame(*old(self), *final(self)),
    {
        let k = self.cur_kind();
        let span = self.cur_token().span();
        let (name, diag) = if k.is_number() {
            (
                PlaceholderName::NumericEnumMember,
                Diagnostic::new(DiagnosticKind::EnumMemberNumericName, span),
            )
        } else if k == Kind::NoSubstitutionTemplate || k == Kind::TemplateHead {
            (
                PlaceholderName::TemplateEnumMember,
                Diagnostic::new(DiagnosticKind::ComputedEnumMemberName, span),
            )
        } else {
            return None;
        };
        if self.options.recover_from_errors {
            self.error(diag);
            self.bump_any();
            Some(Placeholder { name, span })
        } else {
            self.set_fatal_error(diag);
            None
        }
    }

    /// Whether `k` can begin a catch clause parameter, or close an empty one.
    pub open spec fn catch_parameter_start(k: Kind) -> bool {
        k == Kind::Ident || k == Kind::LCurly || k == Kind::LBrack || k == Kind::RParen
    }

    /// Inside `catch (`, when errors are recovered from and the current token
    /// can begin no binding: reports it, skips to the first `)` or the end of
    /// input, and returns the placeholder binding `e` over the skipped
    /// tokens. Otherwise nothing happens and `None` comes back.
    pub fn recover_catch_parameter(&mut self) -> (r: Option<Placeholder>)
        requires
            old(self).wf(),
        ensures
            final(self).wf(),
            same_frame(*old(self), *final(self)),
            !old(self).options.recover_from_errors || ParserImpl::catch_parameter_start(
                old(self).token.kind,
            ) ==> r is None && *final(self) == *old(self),
            old(self).options.recover_from_errors && !ParserImpl::catch_parameter_start(
                old(self).token.kind,
            ) ==> {
                let start = old(self).token.start;
                &&& final(self).pos == close_paren_at(old(self).tokens@, old(self).pos as int)
                &&& final(self).errors@ == old(self).errors@.push(
                    Diagnostic {
                        kind: DiagnosticKind::ExpectCatchParameter,
                        span: old(self).token.span_of(),
                    },
                ) + skip_escapes(old(self).tokens@, old(self).pos as int, final(self).pos as int)
                &&& final(self).fatal_error == old(self).fatal_error
                &&& r == Some(
                    Placeholder {
                        name: PlaceholderName::CatchBinding,
                        span: Span {
                            start,
                            end: if final(self).prev_token_end < start {
                                start
                            } else {
                                final(self).prev_token_end
                            },
                        },
                    },
                )
            },
    {
        if !self.options.recover_from_errors || matches!(
            self.cur_kind(),
            Kind::Ident | Kind::LCurly | Kind::LBrack | Kind::RParen
        ) {
            return None;
        }
        let start = self.start_span();
        let span = self.cur_token().span();
        self.error(Diagnostic::new(DiagnosticKind::ExpectCatchParameter, span));
        let ghost marked = self.errors@;
        let ghost from = self.pos as int;
        let ghost toks = self.tokens@;
        assert(self.errors@ =~= marked + skip_escapes(toks, from, from));
        while !self.at(Kind::RParen) && !self.at(Kind::Eof)
            invariant
                self.wf(),
                same_frame(*old(self), *self),
                self.options.recover_from_errors,
                self.fatal_error == old(self).fatal_error,
                toks == self.tokens@,
                from == old(self).pos,
                from <= self.pos,
                close_paren_at(toks, from) == close_paren_at(toks, self.pos as int),
                self.errors@ == marked + skip_escapes(toks, from, self.pos as int),
            decreases self.tokens@.len() - self.pos,
        {
            self.skip_one(Ghost(from), Ghost(marked));
        }
        proof {
            self.lemma_bounds();
        }
        // nothing skipped before end of input: an empty span where the parameter was due
        let end = if self.prev_token_end < start {
            start
        } else {
            self.prev_token_end
        };
        Some(Placeholder { name: PlaceholderName::CatchBinding, span: Span::new(start, end) })
    }

    /// Moves past the current token, which is not the end of input, while
    /// skipping tokens from `from` on after the diagnostics `marked`.
    fn skip_one(&mut self, Ghost(from): Ghost<int>, Ghost(marked): Ghost<Seq<Diagnostic>>)
        requires
            old(self).wf(),
            old(self).options.recover_from_errors,
            old(self).token.kind != Kind::Eof,
            from <= old(self).pos,
            old(self).errors@ == marked + skip_escapes(old(self).tokens@, from, old(self).pos as int),
        ensures
            final(self).wf(),
            same_frame(*old(self), *final(self)),
            final(self).fatal_error == old(self).fatal_error,
            final(self).pos == old(self).pos + 1,
            final(self).errors@ == marked + skip_escapes(final(self).tokens@, from, final(self).pos as int),
            old(self).token.kind != Kind::RParen ==> close_paren_at(old(self).tokens@, old(self).pos as int)
                == close_paren_at(old(self).tokens@, final(self).pos as int),
    {
        proof {
            self.lemma_bounds();
        }
        let ghost toks = self.tokens@;
        let ghost i = self.pos as int;
        self.bump_any();
        assert(skip_escapes(toks, from, i + 1) == skip_escapes(toks, from, i) + token_escape(
            toks[i],
        ));
        assert(self.errors@ =~= marked + skip_escapes(toks, from, i + 1));
    }

    /// The placeholder for a formal parameter that could not be parsed, at
    /// the current token.
    pub fn create_dummy_parameter(&self) -> (r: Placeholder)
        ensures
            r == (Placeholder {
                name: PlaceholderName::InvalidParameter,
                span: self.token.span_of(),
            }),
    {
        Placeholder { name: PlaceholderName::InvalidParameter, span: self.cur_token().span() }
    }
    /// After a `try` block that ends at `block_end`, with or without a catch
    /// clause and a finally block: where both are missing, reports it and,
    /// when errors are recovered from, returns the binding `e` of the
    /// placeholder catch clause (with an empty body) that stands in the empty
    /// span at the end of the block.
    pub fn recover_missing_handler(&mut self, block_end: u32, has_handler: bool, has_finalizer: bool)
        -> (r: Option<Placeholder>)
        requires
            old(self).wf(),
        ensures
            final(self).wf(),
            has_handler || has_finalizer ==> r is None && *final(self) == *old(self),
            !has_handler && !has_finalizer ==> reported(
                *old(self),
                *final(self),
                Diagnostic {
                    kind: DiagnosticKind::ExpectCatchFinally,
                    span: Span { start: block_end, end: block_end },
                },
            ) && r == (if old(self).options.recover_from_errors {
                Some(
                    Placeholder {
                        name: PlaceholderName::CatchBinding,
                        span: Span { start: block_end, end: block_end },
                    },
                )
            } else {
                None
            }),
    {
        if has_handler || has_finalizer {
            return None;
        }
        let range = Span::empty(block_end);
        self.report(Diagnostic::new(DiagnosticKind::ExpectCatchFinally, range));
        if self.options.recover_from_errors {
            Some(Placeholder { name: PlaceholderName::CatchBinding, span: range })
        } else {
            None
        }
    }

    /// At a `catch` with no `try` before it: reports it. When errors are
    /// recovered from, moves past `catch` and a parenthesized parameter (up
    /// to the first `)` and past it, or to the end of input) and returns
    /// `true`: the caller skips the block that follows and puts an empty
    /// statement. Otherwise the diagnostic is fatal and `false` comes back.
    pub fn skip_orphaned_catch_head(&mut self) -> (r: bool)
        requires
            old(self).wf(),
            old(self).token.kind == Kind::Catch,
        ensures
            final(self).wf(),
            same_frame(*old(self), *final(self)),
            r == old(self).options.recover_from_errors,
            !r ==> reported(
                *old(self),
                *final(self),
                Diagnostic { kind: DiagnosticKind::CatchWithoutTry, span: old(self).token.span_of() },
            ),
            r ==> {
                let toks = old(self).tokens@;
                let after = old(self).pos + 1;
                let fc = close_paren_at(toks, after + 1);
                &&& final(self).pos == (if toks[after].kind != Kind::LParen {
                    after
                } else if toks[fc].kind == Kind::RParen {
                    fc + 1
                } else {
                    fc
                })
                &&& final(self).errors@ == old(self).errors@.push(
                    Diagnostic {
                        kind: DiagnosticKind::CatchWithoutTry,
                        span: old(self).token.span_of(),
                    },
                ) + skip_escapes(toks, old(self).pos as int, final(self).pos as int)
                &&& final(self).fatal_error == old(self).fatal_error
            },
    {
        let span = self.cur_token().span();
        self.report(Diagnostic::new(DiagnosticKind::CatchWithoutTry, span));
        if !self.options.recover_from_errors {
            return false;
        }
        let ghost marked = self.errors@;
        let ghost from = self.pos as int;
        let ghost toks = self.tokens@;
        assert(self.errors@ =~= marked + skip_escapes(toks, from, from));
        self.skip_one(Ghost(from), Ghost(marked));
        if self.at(Kind::LParen) {
            self.skip_one(Ghost(from), Ghost(marked));
            while !self.at(Kind::RParen) && !self.at(Kind::Eof)
                invariant
                    self.wf(),
                    same_frame(*old(self), *self),
                    self.options.recover_from_errors,
                    self.fatal_error == old(self).fatal_error,
                    toks == self.tokens@,
                    from == old(self).pos,
                    from + 2 <= self.pos,
                    toks[from + 1].kind == Kind::LParen,
                    close_paren_at(toks, from + 2) == close_paren_at(toks, self.pos as int),
                    self.errors@ == marked + skip_escapes(toks, from, self.pos as int),
                decreases self.tokens@.len() - self.pos,
            {
                self.skip_one(Ghost(from), Ghost(marked));
            }
            proof {
                self.lemma_bounds();
            }
            if self.at(Kind::RParen) {
                self.skip_one(Ghost(from), Ghost(marked));
            }
        }
        true
    }

    /// At a `finally` with no `try` before it: reports it. When errors are
    /// recovered from, moves past `finally` and returns `true`: the caller
    /// skips the block that follows and puts an empty statement. Otherwise
    /// the diagnostic is fatal and `false` comes back.
    pub fn skip_orphaned_finally_head(&mut self) -> (r: bool)
        requires
            old(self).wf(),
            old(self).token.kind == Kind::Finally,
        ensures
            final(self).wf(),
            same_frame(*old(self), *final(self)),
            r == old(self).options.recover_from_errors,
            !r ==> reported(
                *old(self),
                *final(self),
                Diagnostic {
                    kind: DiagnosticKind::FinallyWithoutTry,
                    span: old(self).token.span_of(),
                },
            ),
            r ==> final(self).pos == old(self).pos + 1 && final(self).errors@ == old(self).errors@.push(
                Diagnostic {
                    kind: DiagnosticKind::FinallyWithoutTry,
                    span: old(self).token.span_of(),
                },
            ) + old(self).escape_errors(Kind::Finally) && final(self).fatal_error == old(self).fatal_error,
    {
        let span = self.cur_token().span();
        self.report(Diagnostic::new(DiagnosticKind::FinallyWithoutTry, span));
        if !self.options.recover_from_errors {
            return false;
        }
        proof {
            self.lemma_bounds();
        }
        self.bump_any();
        true
    }

    /// Where a computed enum member name `[e]` was parsed, with `name` the
    /// form of `e` and `span` its span: a string or a template without
    /// substitutions is allowed (`None`, nothing reported). A numeric literal
    /// is reported and, when errors are recovered from, replaced by `_`
    /// followed by its digits; any other expression is reported and replaced
    /// by `__computed__`. Without recovery the diagnostic is fatal and `None`
    /// comes back.
    pub fn recover_computed_enum_member_name(&mut self, name: ComputedName, span: Span) -> (r:
        Option<Placeholder>)
        requires
            old(self).wf(),
        ensures
            final(self).wf(),
            name == ComputedName::StringLiteral || name == ComputedName::NoSubstitutionTemplate
                ==> r is None && *final(self) == *old(self),
            name == ComputedName::NumericLiteral ==> reported(
                *old(self),
                *final(self),
                Diagnostic { kind: DiagnosticKind::EnumMemberNumericName, span },
            ) && r == (if old(self).options.recover_from_errors {
                Some(Placeholder { name: PlaceholderName::NumericEnumMember, span })
            } else {
                None
            }),
            name == ComputedName::Other ==> reported(
                *old(self),
                *final(self),
                Diagnostic { kind: DiagnosticKind::ComputedEnumMemberName, span },
            ) && r == (if old(self).options.recover_from_errors {
                Some(Placeholder { name: PlaceholderName::ComputedEnumMember, span })
            } else {
                None
            }),
    {
        let (placeholder, kind) = match name {
            ComputedName::StringLiteral | ComputedName::NoSubstitutionTemplate => {
                return None;
            },
            ComputedName::NumericLiteral => (
                PlaceholderName::NumericEnumMember,
                DiagnosticKind::EnumMemberNumericName,
            ),
            ComputedName::Other => (
                PlaceholderName::ComputedEnumMember,
                DiagnosticKind::ComputedEnumMemberName,
            ),
        };
        self.report(Diagnostic::new(kind, span));
        if self.options.recover_from_errors {
            Some(Placeholder { name: placeholder, span })
        } else {
            None
        }
    }

    /// After a function head that started at `start`, where a body is
    /// `required` and `has_body` tells whether one was parsed: a missing body
    /// is reported over the head and, when errors are recovered from, the
    /// span of the empty placeholder body comes back. Without recovery the
    /// diagnostic is fatal and `None` comes back.
    pub fn recover_missing_function_body(&mut self, start: u32, required: bool, has_body: bool)
        -> (r: Option<Span>)
        requires
            old(self).wf(),
            start <= old(self).prev_token_end,
        ensures
            final(self).wf(),
            same_frame(*old(self), *final(self)),
            !required || has_body ==> r is None && *final(self) == *old(self),
            required && !has_body ==> reported(
                *old(self),
                *final(self),
                Diagnostic {
                    kind: DiagnosticKind::ExpectFunctionBody,
                    span: Span { start, end: old(self).prev_token_end },
                },
            ) && r == (if old(self).options.recover_from_errors {
                Some(Span { start, end: old(self).prev_token_end })
            } else {
                None
            }),
    {
        if !required || has_body {
            return None;
        }
        let span = self.end_span(start);
        self.report(Diagnostic::new(DiagnosticKind::ExpectFunctionBody, span));
        if self.options.recover_from_errors {
            Some(span)
        } else {
            None
        }
    }
}

/// Whether a function of `kind` must have a body: always in JavaScript; in
/// TypeScript only an object method (elsewhere a body-less signature is an
/// overload or a declaration).
pub fn function_body_required(is_ts: bool, kind: FunctionKind) -> (r: bool)
    ensures
        r == (!is_ts || kind == FunctionKind::ObjectMethod),
{
    !is_ts || kind == FunctionKind::ObjectMethod
}

} // verus!
