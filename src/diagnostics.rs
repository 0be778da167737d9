//! Syntax diagnostics: what went wrong, and where.
use vstd::prelude::*;

use crate::context::ParsingContext;
use crate::token::{Kind, Span};

verus! {

/// The kinds of syntax error that the parsing machinery reports.
#[derive(Debug, Clone, Copy, PartialEq, Eq, Structural)]
pub enum DiagnosticKind {
    /// A keyword spelled with a Unicode escape sequence.
    EscapedKeyword,
    /// `expected` was required where `found` stands.
    ExpectToken { expected: Kind, found: Kind },
    /// The closer `expected` of the construct opened at `opening` is missing.
    ExpectClosing { expected: Kind, found: Kind, opening: Span },
    /// The `:` of a conditional expression opened by `?` at `question` is missing.
    ExpectConditionalAlternative { found: Kind, question: Span },
    /// Neither the closer nor the separator of a list came where `found` stands.
    ExpectClosingOrSeparator { close: Kind, separator: Kind, found: Kind, opening: Span },
    /// `found` can begin no member of the construct `context`.
    ExpectMember { context: ParsingContext, found: Kind },
    /// No `;`, and automatic semicolon insertion does not apply.
    AutoSemicolonInsertion,
    /// A token that no construct can use at this point.
    UnexpectedToken { found: Kind },
    /// A `(` opened at `opening` that nothing closed.
    UnclosedParen { opening: Span },
    /// A numeric literal used as an enum member name.
    EnumMemberNumericName,
    /// A computed name or a template used as an enum member name.
    ComputedEnumMemberName,
    /// A token that can begin no catch clause parameter.
    ExpectCatchParameter,
    /// A `try` block with neither `catch` nor `finally`.
    ExpectCatchFinally,
    /// A function with no body where one is required.
    ExpectFunctionBody,
    /// A `catch` clause with no `try` before it.
    CatchWithoutTry,
    /// A `finally` clause with no `try` before it.
    FinallyWithoutTry,
    /// A trailing comma after a rest element.
    RestElementTrailingComma,
    /// A rest element that is not the last of its list.
    RestElementLast,
    /// A rest parameter that is not the last parameter.
    RestParameterLast,
    /// The file is written in Flow, which is not supported.
    Flow,
    /// The source is longer than the offsets of a span can address.
    OverlongSource,
}

/// A diagnostic: its kind and its primary span.
#[derive(Debug, Clone, Copy, PartialEq, Eq, Structural)]
pub struct Diagnostic {
    pub kind: DiagnosticKind,
    pub span: Span,
}

/// A fatal diagnostic, with the number of recorded diagnostics when it came:
/// rewinding past it, or surfacing it at the end, truncates the list there.
#[derive(Debug, Clone, Copy, PartialEq, Eq, Structural)]
pub struct FatalError {
    pub error: Diagnostic,
    pub errors_len: usize,
}

impl Diagnostic {
    pub fn new(kind: DiagnosticKind, span: Span) -> (r: Diagnostic)
        ensures
            r.kind == kind,
            r.span == span,
    {
        Diagnostic { kind, span }
    }
}

} // verus!
