//! Delimited lists (`a, b, c)`): what to do next at each step. The caller
//! parses an element whenever a step says so; separators, the closer, the
//! trailing separator, a rest element and the errors between are decided
//! here. After an error the list synchronizes: the offending token is
//! skipped unless some active construct can use it, in which case the list
//! is left.
use vstd::prelude::*;

use crate::context::ParsingContext;
use crate::cursor::{ParserImpl, same_frame, stepped};
use crate::diagnostics::{Diagnostic, DiagnosticKind};
use crate::synchronization::{RecoveryDecision, meaningful_in, terminates};
use crate::token::{Kind, Span};

verus! {

/// The next step of a delimited list.
#[derive(Debug, Clone, Copy, PartialEq, Eq, Structural)]
pub enum ListStep {
    /// Parse an element at the current token.
    Element,
    /// Parse a rest element (`...x`) at the current token.
    Rest,
    /// The list ends; `trailing` is the offset of a separator that stood
    /// right before the closer.
    Done { trailing: Option<u32> },
    /// A token was reported and skipped: take the next step, still not
    /// before the first element.
    Again,
}

/// The most steps a formal parameter list takes before it gives up.
pub const MAX_PARAMETERS: usize = 1000;

/// Whether recovery in state `p` skips a token of kind `k` that the
/// construct `ctx` cannot use.
pub open spec fn skips(p: ParserImpl, ctx: ParsingContext, k: Kind) -> bool {
    p.options.recover_from_errors && !terminates(ctx, k) && !meaningful_in(p.context_stack@, k)
}

/// `b` is `a` after the cursor came to the token at `at` (past nothing, or
/// past a comma) and the error `d` was reported there, in a list of `ctx`,
/// with the step `r`: the token is skipped (`Again`) where recovery skips
/// it; otherwise the list is left (`Done`) with `d` reported.
pub open spec fn error_at(
    a: ParserImpl,
    b: ParserImpl,
    at: int,
    ctx: ParsingContext,
    d: Diagnostic,
    r: ListStep,
) -> bool {
    let t = a.tokens@[at];
    &&& same_frame(a, b)
    &&& if skips(a, ctx, t.kind) {
        &&& r == ListStep::Again
        &&& b.pos == at + 1
        &&& b.errors@ == a.errors@.push(d) + (if t.escaped && t.kind.keyword() {
            seq![Diagnostic { kind: DiagnosticKind::EscapedKeyword, span: t.span_of() }]
        } else {
            Seq::empty()
        })
        &&& b.fatal_error == a.fatal_error
    } else {
        &&& r == (ListStep::Done { trailing: None })
        &&& b.pos == at
        &&& b.errors@ == a.reported_errors(d)
        &&& b.fatal_error == a.reported_fatal(d)
    }
}

impl ParserImpl {
    /// The current token ends a list closed by `close`: the closer, end of
    /// input, an unclassified token, or a fatal diagnostic was set.
    pub open spec fn at_list_end(&self, close: Kind) -> bool {
        self.token.kind == close || self.token.kind == Kind::Eof || self.token.kind
            == Kind::Undetermined || self.fatal_error is Some
    }

    /// The diagnostic for a token at which neither the closer `close` nor the
    /// separator `separator` of a list opened at `opening` stands.
    pub open spec fn separator_error(&self, close: Kind, separator: Kind, opening: Span) -> Diagnostic {
        Diagnostic {
            kind: DiagnosticKind::ExpectClosingOrSeparator {
                close,
                separator,
                found: self.token.kind,
                opening,
            },
            span: self.token.span_of(),
        }
    }

    fn is_list_end(&self, close: Kind) -> (r: bool)
        ensures
            r == self.at_list_end(close),
    {
        let kind = self.cur_kind();
        kind == close || matches!(kind, Kind::Eof | Kind::Undetermined) || self.fatal_error.is_some()
    }

    /// Reports `d` at the current token of a list of `ctx`, then skips the
    /// token (`Again`) or leaves the list (`Done`) as synchronization
    /// decides; without recovery `d` is fatal and the list is left.
    fn list_error(&mut self, ctx: ParsingContext, d: Diagnostic) -> (r: ListStep)
        requires
            old(self).wf(),
        ensures
            final(self).wf(),
            error_at(*old(self), *final(self), old(self).pos as int, ctx, d, r),
    {
        self.report(d);
        match self.synchronize_on_error(ctx) {
            RecoveryDecision::Skip => ListStep::Again,
            RecoveryDecision::Abort => ListStep::Done { trailing: None },
        }
    }

    /// The next step of a list of `ctx` closed by `close` whose elements are
    /// divided by `separator`; `first` before its first element. At the end
    /// of the list it is done. Before the first element an element follows.
    /// Later a separator must come: without one the error is reported and the
    /// list synchronizes; with one the separator is consumed, and then either
    /// the closer follows (done, with a trailing separator) or another
    /// element.
    pub fn next_delimited_step(
        &mut self,
        ctx: ParsingContext,
        close: Kind,
        separator: Kind,
        opening: Span,
        first: bool,
    ) -> (r: ListStep)
        requires
            old(self).wf(),
            separator != close,
        ensures
            final(self).wf(),
            old(self).at_list_end(close) ==> r == (ListStep::Done { trailing: None })
                && *final(self) == *old(self),
            !old(self).at_list_end(close) && first ==> r == ListStep::Element && *final(self)
                == *old(self),
            !old(self).at_list_end(close) && !first && old(self).token.kind != separator
                ==> error_at(
                *old(self),
                *final(self),
                old(self).pos as int,
                ctx,
                old(self).separator_error(close, separator, opening),
                r,
            ),
            !old(self).at_list_end(close) && !first && old(self).token.kind == separator ==> {
                &&& stepped(*old(self), *final(self), separator)
                &&& final(self).token.kind == close ==> r == (ListStep::Done {
                    trailing: Some((old(self).token.end - 1) as u32),
                })
                &&& final(self).token.kind != close ==> r == ListStep::Element
            },
    {
        if self.is_list_end(close) {
            return ListStep::Done { trailing: None };
        }
        if first {
            return ListStep::Element;
        }
        if !self.at(separator) {
            let span = self.cur_token().span();
            let found = self.cur_kind();
            let d = Diagnostic::new(
                DiagnosticKind::ExpectClosingOrSeparator { close, separator, found, opening },
                span,
            );
            return self.list_error(ctx, d);
        }
        proof {
            self.lemma_bounds();
        }
        self.bump(separator);
        if self.at(close) {
            let trailing = self.prev_token_end - 1;
            return ListStep::Done { trailing: Some(trailing) };
        }
        ListStep::Element
    }

    /// The next step of a comma-divided binding list of `ctx` closed by
    /// `close` that may end with a rest element. `first` before its first
    /// element; `rest` is the span of the rest element parsed, if any;
    /// `rest_last` is the diagnostic kind for anything after a rest element.
    /// A missing comma is reported and the list synchronizes. A comma right
    /// before the closer after a rest element is reported outside ambient
    /// contexts. Anything else after a rest element is reported and the list
    /// synchronizes. An element at `...` is a rest element.
    pub fn next_binding_list_step(
        &mut self,
        ctx: ParsingContext,
        close: Kind,
        opening: Span,
        first: bool,
        rest: Option<Span>,
        rest_last: DiagnosticKind,
    ) -> (r: ListStep)
        requires
            old(self).wf(),
            close != Kind::Comma,
        ensures
            final(self).wf(),
            same_frame(*old(self), *final(self)),
            old(self).at_list_end(close) ==> r == (ListStep::Done { trailing: None })
                && *final(self) == *old(self),
            // a missing comma
            !old(self).at_list_end(close) && !first && old(self).token.kind != Kind::Comma
                ==> error_at(
                *old(self),
                *final(self),
                old(self).pos as int,
                ctx,
                old(self).separator_error(close, Kind::Comma, opening),
                r,
            ),
            // a comma, then the closer
            !old(self).at_list_end(close) && !first && old(self).token.kind == Kind::Comma
                && old(self).tokens@[old(self).next_pos() as int].kind == close ==> {
                let d = Diagnostic {
                    kind: DiagnosticKind::RestElementTrailingComma,
                    span: old(self).token.span_of(),
                };
                let trailing_error = rest is Some && !old(self).ctx.ambient;
                &&& r == (ListStep::Done { trailing: None })
                &&& final(self).pos == old(self).next_pos()
                &&& final(self).errors@ == (if trailing_error {
                    old(self).reported_errors(d)
                } else {
                    old(self).errors@
                })
                &&& final(self).fatal_error == (if trailing_error {
                    old(self).reported_fatal(d)
                } else {
                    old(self).fatal_error
                })
            },
            // another element may stand at `at`: first, or after a comma
            !old(self).at_list_end(close) && (first || (old(self).token.kind == Kind::Comma
                && old(self).tokens@[old(self).next_pos() as int].kind != close)) ==> {
                let at = if first {
                    old(self).pos as int
                } else {
                    old(self).next_pos() as int
                };
                let k = old(self).tokens@[at].kind;
                &&& rest is Some ==> error_at(
                    *old(self),
                    *final(self),
                    at,
                    ctx,
                    Diagnostic { kind: rest_last, span: rest.unwrap() },
                    r,
                )
                &&& rest is None ==> final(self).pos == at && final(self).errors@ == old(self).errors@ && final(self).fatal_error == old(self).fatal_error
                &&& rest is None && k == Kind::Dot3 ==> r == ListStep::Rest
                &&& rest is None && k != Kind::Dot3 ==> r == ListStep::Element
            },
    {
        if self.is_list_end(close) {
            return ListStep::Done { trailing: None };
        }
        if !first {
            let comma_span = self.cur_token().span();
            if !self.at(Kind::Comma) {
                let found = self.cur_kind();
                let d = Diagnostic::new(
                    DiagnosticKind::ExpectClosingOrSeparator {
                        close,
                        separator: Kind::Comma,
                        found,
                        opening,
                    },
                    comma_span,
                );
                return self.list_error(ctx, d);
            }
            proof {
                self.lemma_bounds();
            }
            self.bump_any();
            if self.at(close) {
                if rest.is_some() && !self.ctx.has_ambient() {
                    self.report(Diagnostic::new(DiagnosticKind::RestElementTrailingComma, comma_span));
                }
                return ListStep::Done { trailing: None };
            }
        }
        if let Some(r) = rest {
            return self.list_error(ctx, Diagnostic::new(rest_last, r));
        }
        if self.at(Kind::Dot3) {
            ListStep::Rest
        } else {
            ListStep::Element
        }
    }

    /// The next step of a formal parameter list, after `count` steps; `first`
    /// before its first parameter, `rest` the span of the rest parameter
    /// parsed, if any. After `MAX_PARAMETERS` steps the list gives up, with a
    /// report when errors are recovered from. Otherwise the step of a binding
    /// list of parameters closed by `)`, where anything after the rest
    /// parameter is reported as such.
    pub fn next_parameter_step(
        &mut self,
        opening: Span,
        first: bool,
        rest: Option<Span>,
        count: usize,
    ) -> (r: ListStep)
        requires
            old(self).wf(),
        ensures
            final(self).wf(),
            same_frame(*old(self), *final(self)),
            count >= MAX_PARAMETERS ==> r == (ListStep::Done { trailing: None }) && final(self).pos == old(self).pos && final(self).fatal_error == old(self).fatal_error
                && final(self).errors@ == old(self).errors@ + (
            if old(self).options.recover_from_errors {
                seq![
                    Diagnostic {
                        kind: DiagnosticKind::UnexpectedToken { found: old(self).token.kind },
                        span: old(self).token.span_of(),
                    },
                ]
            } else {
                Seq::empty()
            }),
            // a missing comma
            count < MAX_PARAMETERS && !old(self).at_list_end(Kind::RParen) && !first && old(self).token.kind != Kind::Comma ==> error_at(
                *old(self),
                *final(self),
                old(self).pos as int,
                ParsingContext::Parameters,
                old(self).separator_error(Kind::RParen, Kind::Comma, opening),
                r,
            ),
            // a comma, then `)`
            count < MAX_PARAMETERS && !old(self).at_list_end(Kind::RParen) && !first && old(self).token.kind == Kind::Comma && old(self).tokens@[old(self).next_pos() as int].kind
                == Kind::RParen ==> {
                let d = Diagnostic {
                    kind: DiagnosticKind::RestElementTrailingComma,
                    span: old(self).token.span_of(),
                };
                let trailing_error = rest is Some && !old(self).ctx.ambient;
                &&& r == (ListStep::Done { trailing: None })
                &&& final(self).pos == old(self).next_pos()
                &&& final(self).errors@ == (if trailing_error {
                    old(self).reported_errors(d)
                } else {
                    old(self).errors@
                })
                &&& final(self).fatal_error == (if trailing_error {
                    old(self).reported_fatal(d)
                } else {
                    old(self).fatal_error
                })
            },
            // a parameter may stand at `at`: first, or after a comma
            count < MAX_PARAMETERS && !old(self).at_list_end(Kind::RParen) && (first || (old(self).token.kind == Kind::Comma && old(self).tokens@[old(self).next_pos() as int].kind
                != Kind::RParen)) ==> {
                let at = if first {
                    old(self).pos as int
                } else {
                    old(self).next_pos() as int
                };
                let k = old(self).tokens@[at].kind;
                &&& rest is Some ==> error_at(
                    *old(self),
                    *final(self),
                    at,
                    ParsingContext::Parameters,
                    Diagnostic { kind: DiagnosticKind::RestParameterLast, span: rest.unwrap() },
                    r,
                )
                &&& rest is None ==> final(self).pos == at && final(self).errors@ == old(self).errors@ && final(self).fatal_error == old(self).fatal_error
                &&& rest is None && k == Kind::Dot3 ==> r == ListStep::Rest
                &&& rest is None && k != Kind::Dot3 ==> r == ListStep::Element
            },
            count < MAX_PARAMETERS && old(self).at_list_end(Kind::RParen) ==> r == (
            ListStep::Done { trailing: None }) && *final(self) == *old(self),
    {
        if count >= MAX_PARAMETERS {
            if self.options.recover_from_errors {
                let span = self.cur_token().span();
                let found = self.cur_kind();
                self.error(Diagnostic::new(DiagnosticKind::UnexpectedToken { found }, span));
            }
            proof {
                assert(self.errors@ =~= old(self).errors@ + (if old(self).options.recover_from_errors {
                    seq![
                        Diagnostic {
                            kind: DiagnosticKind::UnexpectedToken { found: old(self).token.kind },
                            span: old(self).token.span_of(),
                        },
                    ]
                } else {
                    Seq::empty()
                }));
            }
            return ListStep::Done { trailing: None };
        }
        self.next_binding_list_step(
            ParsingContext::Parameters,
            Kind::RParen,
            opening,
            first,
            rest,
            DiagnosticKind::RestParameterLast,
        )
    }
}

} // verus!
