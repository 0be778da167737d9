//! The end of a parse: surfacing the fatal diagnostic, the length limit, Flow
//! files, and the result that callers see.
use vstd::prelude::*;

use crate::cursor::{ParserImpl, stepped};
use crate::diagnostics::{Diagnostic, DiagnosticKind};
use crate::token::{Kind, Span};
use crate::{Language, MAX_LEN, ModuleKind, SourceType};

verus! {

/// What a parse hands back besides the tree.
pub struct ParseOutcome {
    /// All diagnostics: the lexer's first, then the parser's.
    pub errors: Vec<Diagnostic>,
    /// The parse stopped early: on a fatal diagnostic, or on an overlong source.
    pub panicked: bool,
    /// The tree is replaced by an empty program of the right source type.
    pub program_discarded: bool,
    /// The file carries a Flow annotation.
    pub is_flow_language: bool,
}

/// The bytes of `@flow`.
pub open spec fn flow_marker() -> Seq<u8> {
    seq![64u8, 102u8, 108u8, 111u8, 119u8]
}

/// Whether `needle` occurs in `hay` at offset `i`.
pub open spec fn occurs_at(hay: Seq<u8>, needle: Seq<u8>, i: int) -> bool {
    0 <= i && i + needle.len() <= hay.len() && hay.subrange(i, i + needle.len()) == needle
}

/// Whether `needle` occurs in `hay`.
pub open spec fn occurs_in(hay: Seq<u8>, needle: Seq<u8>) -> bool {
    exists|i: int| occurs_at(hay, needle, i)
}

/// Whether `needle` occurs in `hay` at offset `i`.
fn bytes_at(hay: &[u8], needle: &[u8], i: usize) -> (r: bool)
    requires
        i + needle@.len() <= hay@.len(),
    ensures
        r == occurs_at(hay@, needle@, i as int),
{
    let hay_len = hay.len();
    let mut j: usize = 0;
    while j < needle.len()
        invariant
            hay_len == hay@.len(),
            i + needle@.len() <= hay@.len(),
            0 <= j <= needle@.len(),
            forall|k: int| 0 <= k < j ==> hay@[i + k] == needle@[k],
        decreases needle@.len() - j,
    {
        if hay[i + j] != needle[j] {
            assert(hay@.subrange(i as int, i + needle@.len())[j as int] != needle@[j as int]);
            return false;
        }
        j = j + 1;
    }
    assert(hay@.subrange(i as int, i + needle@.len()) =~= needle@);
    true
}

/// Whether `needle` occurs in `hay`.
pub fn contains_bytes(hay: &[u8], needle: &[u8]) -> (r: bool)
    ensures
        r == occurs_in(hay@, needle@),
{
    if needle.len() > hay.len() {
        return false;
    }
    let last = hay.len() - needle.len();
    let mut i: usize = 0;
    loop
        invariant
            last == hay@.len() - needle@.len(),
            0 <= i <= last,
            forall|k: int| 0 <= k < i ==> !occurs_at(hay@, needle@, k),
        ensures
            forall|k: int| 0 <= k <= last ==> !occurs_at(hay@, needle@, k),
        decreases last - i,
    {
        if bytes_at(hay, needle, i) {
            return true;
        }
        if i == last {
            break;
        }
        i = i + 1;
    }
    false
}

/// The text of `span` in `source`, where the span lies within it.
pub open spec fn span_text(source: Seq<u8>, span: Span) -> Seq<u8> {
    source.subrange(span.start as int, span.end as int)
}

/// Whether a JavaScript source whose first comment is `comment` is a Flow
/// file: the comment contains `@flow`.
pub open spec fn flow_file(source_type: SourceType, source: Seq<u8>, comment: Option<Span>) -> bool {
    &&& source_type.language == Language::JavaScript
    &&& (comment matches Some(c) && c.within(source.len()) && occurs_in(
        span_text(source, c),
        flow_marker(),
    ))
}

/// Whether the first comment of `source`, at `comment`, marks a Flow file.
pub fn is_flow_file(source_type: SourceType, source: &[u8], comment: Option<Span>) -> (r: bool)
    ensures
        r == flow_file(source_type, source@, comment),
{
    if source_type.language != Language::JavaScript {
        return false;
    }
    match comment {
        None => false,
        Some(c) => {
            if !(c.start <= c.end && (c.end as usize) <= source.len()) {
                return false;
            }
            let text = slice_range(source, c.start as usize, c.end as usize);
            let marker: [u8; 5] = [64u8, 102u8, 108u8, 111u8, 119u8];
            let m = marker.as_slice();
            assert(m@ =~= flow_marker());
            contains_bytes(text, m)
        },
    }
}

/// `source[start..end]`.
fn slice_range(source: &[u8], start: usize, end: usize) -> (r: &[u8])
    requires
        start <= end <= source@.len(),
    ensures
        r@ == source@.subrange(start as int, end as int),
{
    vstd::slice::slice_subrange(source, start, end)
}

/// The diagnostics after a fatal one is surfaced: those recorded before
/// it, then the fatal one itself.
pub open spec fn surfaced_errors(p: ParserImpl) -> Seq<Diagnostic> {
    match p.fatal_error {
        None => p.errors@,
        Some(f) => p.errors@.take(f.errors_len as int).push(f.error),
    }
}

/// The single diagnostic of a Flow file: its first comment.
pub open spec fn flow_diagnostic(comment: Option<Span>) -> Diagnostic {
    Diagnostic { kind: DiagnosticKind::Flow, span: comment.unwrap() }
}

/// The outcome of a parse that ended in state `p`, for a source of
/// `text_len` bytes `source`, with the lexer's diagnostics `lexer_errors`
/// and the first comment at `comment`.
pub open spec fn outcome_errors(
    p: ParserImpl,
    lexer_errors: Seq<Diagnostic>,
    text_len: nat,
    source: Seq<u8>,
    comment: Option<Span>,
) -> Seq<Diagnostic> {
    let parser_errors = surfaced_errors(p);
    if text_len > MAX_LEN {
        seq![Diagnostic { kind: DiagnosticKind::OverlongSource, span: Span { start: 0, end: 0 } }]
    } else if (lexer_errors.len() > 0 || parser_errors.len() > 0) && flow_file(
        p.source_type,
        source,
        comment,
    ) {
        seq![flow_diagnostic(comment)]
    } else {
        lexer_errors + parser_errors
    }
}

/// The diagnostic for a source of `text_len` bytes, where that is over the
/// length limit.
pub fn overlong_error(text_len: usize) -> (r: Option<Diagnostic>)
    ensures
        r == (if text_len > MAX_LEN {
            Some(Diagnostic { kind: DiagnosticKind::OverlongSource, span: Span { start: 0, end: 0 } })
        } else {
            None
        }),
{
    if (text_len as u64) > MAX_LEN {
        Some(Diagnostic::new(DiagnosticKind::OverlongSource, Span::empty(0)))
    } else {
        None
    }
}

/// Whether a parse that ended in state `p`, for a source of `text_len`
/// bytes, panicked: it stopped on a fatal diagnostic, or the source is
/// over the length limit.
pub open spec fn outcome_panicked(p: ParserImpl, text_len: nat) -> bool {
    p.fatal_error is Some || text_len > MAX_LEN
}

/// When errors are recovered from, a parse panics only on a source over the
/// length limit.
pub proof fn law_recovery_does_not_panic(p: ParserImpl, text_len: nat)
    requires
        p.wf(),
        p.options.recover_from_errors,
    ensures
        outcome_panicked(p, text_len) == (text_len > MAX_LEN),
{
}

impl ParserImpl {
    /// At a `#!` comment: moves past it and returns its span and the span of
    /// its text after `#!`.
    pub fn parse_hashbang(&mut self) -> (r: Option<(Span, Span)>)
        requires
            old(self).wf(),
        ensures
            final(self).wf(),
            old(self).token.kind != Kind::HashbangComment ==> r is None && *final(self) == *old(self),
            old(self).token.kind == Kind::HashbangComment ==> {
                &&& stepped(*old(self), *final(self), Kind::HashbangComment)
                &&& r matches Some((span, text)) && span == old(self).token.span_of() && text
                    == (Span {
                    start: if old(self).token.start + 2 <= old(self).token.end {
                        (old(self).token.start + 2) as u32
                    } else {
                        old(self).token.end
                    },
                    end: old(self).token.end,
                })
            },
    {
        if !self.at(Kind::HashbangComment) {
            return None;
        }
        proof {
            self.lemma_bounds();
        }
        let start = self.start_span();
        self.bump_any();
        let span = self.end_span(start);
        let text_start = if (span.start as u64) + 2 <= (span.end as u64) {
            span.start + 2
        } else {
            span.end
        };
        Some((span, Span::new(text_start, span.end)))
    }

    /// Ends the parse. A fatal diagnostic is surfaced after those recorded
    /// before it, and the tree is discarded. A source over the length limit
    /// yields the one overlong-source diagnostic. A JavaScript file with
    /// diagnostics whose first comment holds `@flow` yields the one Flow
    /// diagnostic. Otherwise the lexer's diagnostics come first, then the
    /// parser's.
    pub fn finish(
        self,
        lexer_errors: Vec<Diagnostic>,
        text_len: usize,
        source: &[u8],
        comment: Option<Span>,
    ) -> (r: ParseOutcome)
        requires
            self.wf(),
        ensures
            r.errors@ == outcome_errors(self, lexer_errors@, text_len as nat, source@, comment),
            r.panicked == outcome_panicked(self, text_len as nat),
            r.program_discarded == r.panicked,
            r.is_flow_language == (text_len <= MAX_LEN && (lexer_errors@.len() > 0
                || surfaced_errors(self).len() > 0) && flow_file(
                self.source_type,
                source@,
                comment,
            )),
    {
        let lexer_failed = lexer_errors.len() > 0;
        let mut errors = self.errors;
        let mut panicked = false;
        if let Some(fatal) = self.fatal_error {
            panicked = true;
            errors.truncate(fatal.errors_len);
            errors.push(fatal.error);
        }
        if let Some(overlong) = overlong_error(text_len) {
            let mut only: Vec<Diagnostic> = Vec::new();
            only.push(overlong);
            return ParseOutcome {
                errors: only,
                panicked: true,
                program_discarded: true,
                is_flow_language: false,
            };
        }
        if (lexer_failed || errors.len() > 0) && is_flow_file(self.source_type, source, comment) {
            let mut only: Vec<Diagnostic> = Vec::new();
            let span = match comment {
                Some(c) => c,
                None => Span::empty(0),
            };
            only.push(Diagnostic::new(DiagnosticKind::Flow, span));
            return ParseOutcome {
                errors: only,
                panicked,
                program_discarded: panicked,
                is_flow_language: true,
            };
        }
        let mut all = lexer_errors;
        let mut i: usize = 0;
        let ghost lexer_part = all@;
        while i < errors.len()
            invariant
                0 <= i <= errors@.len(),
                all@ == lexer_part + errors@.take(i as int),
            decreases errors@.len() - i,
        {
            all.push(errors[i]);
            i = i + 1;
            assert(all@ =~= lexer_part + errors@.take(i as int));
        }
        assert(errors@.take(errors@.len() as int) =~= errors@);
        ParseOutcome { errors: all, panicked, program_discarded: panicked, is_flow_language: false }
    }
}

/// The source type after the parse: an unambiguous source is a module where
/// import or export syntax was seen, a script otherwise.
pub fn resolved_source_type(source_type: SourceType, has_module_syntax: bool) -> (r: SourceType)
    ensures
        r.language == source_type.language,
        r.jsx == source_type.jsx,
        r.module_kind == (if source_type.module_kind != ModuleKind::Unambiguous {
            source_type.module_kind
        } else if has_module_syntax {
            ModuleKind::Module
        } else {
            ModuleKind::Script
        }),
{
    if source_type.module_kind != ModuleKind::Unambiguous {
        source_type
    } else if has_module_syntax {
        SourceType { module_kind: ModuleKind::Module, ..source_type }
    } else {
        SourceType { module_kind: ModuleKind::Script, ..source_type }
    }
}

/// Without recovery, a parse that stopped on a fatal diagnostic, where the
/// lexer reported nothing, panicked and ends with one diagnostic (and, by
/// `finish`, an empty program): without recovery nothing is recorded before
/// the first error, which is fatal.
pub proof fn law_fatal_outcome(
    p: ParserImpl,
    lexer_errors: Seq<Diagnostic>,
    text_len: nat,
    source: Seq<u8>,
    comment: Option<Span>,
)
    requires
        p.wf(),
        !p.options.recover_from_errors,
        p.fatal_error is Some,
        lexer_errors.len() == 0,
    ensures
        outcome_errors(p, lexer_errors, text_len, source, comment).len() == 1,
        outcome_panicked(p, text_len),
{
    let f = p.fatal_error.unwrap();
    assert(surfaced_errors(p) =~= seq![f.error]);
    assert(lexer_errors + seq![f.error] =~= seq![f.error]);
}

} // verus!
