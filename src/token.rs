//! Tokens as the lexer hands them over: a kind, a byte span, and two flags.
use vstd::prelude::*;

verus! {

/// A byte range `[start, end)` of the source text.
#[derive(Debug, Clone, Copy, PartialEq, Eq, Structural)]
pub struct Span {
    pub start: u32,
    pub end: u32,
}

impl Span {
    pub fn new(start: u32, end: u32) -> (r: Span)
        ensures
            r.start == start,
            r.end == end,
    {
        Span { start, end }
    }

    /// The zero-length span at `at`.
    pub fn empty(at: u32) -> (r: Span)
        ensures
            r.start == at,
            r.end == at,
    {
        Span { start: at, end: at }
    }

    /// `start <= end <= len`.
    pub open spec fn within(self, len: nat) -> bool {
        self.start <= self.end && self.end <= len
    }
}

/// The kinds of token that the parsing machinery tells apart.
#[derive(Debug, Clone, Copy, PartialEq, Eq, Structural, Hash)]
pub enum Kind {
    /// End of input.
    Eof,
    /// A token the lexer could not classify.
    Undetermined,
    /// An identifier that is no keyword.
    Ident,
    /// A `#!` comment on the first line.
    HashbangComment,
    // punctuation
    LCurly,
    RCurly,
    LParen,
    RParen,
    LBrack,
    RBrack,
    LAngle,
    RAngle,
    Semicolon,
    Comma,
    Colon,
    Question,
    Eq,
    Dot,
    Dot3,
    Slash,
    Star,
    At,
    Plus,
    Minus,
    Plus2,
    Minus2,
    Bang,
    Tilde,
    Hash,
    Arrow,
    ShiftLeft,
    ShiftRight,
    ShiftRight3,
    LtEq,
    ShiftLeftEq,
    // literals
    Str,
    TemplateHead,
    TemplateTail,
    NoSubstitutionTemplate,
    Decimal,
    Binary,
    Octal,
    Hex,
    BigInt,
    RegExp,
    JsxText,
    // reserved words
    Break,
    Case,
    Catch,
    Class,
    Const,
    Continue,
    Debugger,
    Default,
    Delete,
    Do,
    Else,
    Enum,
    Export,
    Extends,
    False,
    Finally,
    For,
    Function,
    If,
    Import,
    In,
    Instanceof,
    New,
    Null,
    Return,
    Super,
    Switch,
    This,
    Throw,
    True,
    Try,
    Typeof,
    Var,
    Void,
    While,
    With,
    // reserved in strict mode
    Implements,
    Interface,
    Let,
    Package,
    Private,
    Protected,
    Public,
    Static,
    Yield,
    // contextual keywords
    Abstract,
    Accessor,
    As,
    Async,
    Await,
    Declare,
    From,
    Get,
    Global,
    Module,
    Namespace,
    Of,
    Out,
    Override,
    Readonly,
    Satisfies,
    Setter,
    Type,
    Using,
}

impl Kind {
    /// Reserved words of ECMAScript, in every mode.
    pub open spec fn reserved(self) -> bool {
        matches!(
            self,
            Kind::Break | Kind::Case | Kind::Catch | Kind::Class | Kind::Const | Kind::Continue
                | Kind::Debugger | Kind::Default | Kind::Delete | Kind::Do | Kind::Else
                | Kind::Enum | Kind::Export | Kind::Extends | Kind::False | Kind::Finally
                | Kind::For | Kind::Function | Kind::If | Kind::Import | Kind::In
                | Kind::Instanceof | Kind::New | Kind::Null | Kind::Return | Kind::Super
                | Kind::Switch | Kind::This | Kind::Throw | Kind::True | Kind::Try
                | Kind::Typeof | Kind::Var | Kind::Void | Kind::While | Kind::With
        )
    }

    /// Words reserved in strict mode code only.
    pub open spec fn strict_reserved(self) -> bool {
        matches!(
            self,
            Kind::Implements | Kind::Interface | Kind::Let | Kind::Package | Kind::Private
                | Kind::Protected | Kind::Public | Kind::Static | Kind::Yield
        )
    }

    /// Words with a meaning in some positions only.
    pub open spec fn contextual(self) -> bool {
        matches!(
            self,
            Kind::Abstract | Kind::Accessor | Kind::As | Kind::Async | Kind::Await
                | Kind::Declare | Kind::From | Kind::Get | Kind::Global | Kind::Module
                | Kind::Namespace | Kind::Of | Kind::Out | Kind::Override | Kind::Readonly
                | Kind::Satisfies | Kind::Setter | Kind::Type | Kind::Using
        )
    }

    /// Any keyword, reserved or contextual.
    pub open spec fn keyword(self) -> bool {
        self.reserved() || self.strict_reserved() || self.contextual()
    }

    /// An identifier, or a word that can be read as one in some position.
    pub open spec fn ident_or_keyword(self) -> bool {
        self == Kind::Ident || self.keyword()
    }

    pub fn is_any_keyword(self) -> (r: bool)
        ensures
            r == self.keyword(),
    {
        matches!(
            self,
            Kind::Break | Kind::Case | Kind::Catch | Kind::Class | Kind::Const | Kind::Continue
                | Kind::Debugger | Kind::Default | Kind::Delete | Kind::Do | Kind::Else
                | Kind::Enum | Kind::Export | Kind::Extends | Kind::False | Kind::Finally
                | Kind::For | Kind::Function | Kind::If | Kind::Import | Kind::In
                | Kind::Instanceof | Kind::New | Kind::Null | Kind::Return | Kind::Super
                | Kind::Switch | Kind::This | Kind::Throw | Kind::True | Kind::Try
                | Kind::Typeof | Kind::Var | Kind::Void | Kind::While | Kind::With
                | Kind::Implements | Kind::Interface | Kind::Let | Kind::Package
                | Kind::Private | Kind::Protected | Kind::Public | Kind::Static | Kind::Yield
                | Kind::Abstract | Kind::Accessor | Kind::As | Kind::Async | Kind::Await
                | Kind::Declare | Kind::From | Kind::Get | Kind::Global | Kind::Module
                | Kind::Namespace | Kind::Of | Kind::Out | Kind::Override | Kind::Readonly
                | Kind::Satisfies | Kind::Setter | Kind::Type | Kind::Using
        )
    }

    /// An identifier: a name that is no reserved word. Words reserved only
    /// in strict mode, and contextual keywords, count.
    pub open spec fn ident(self) -> bool {
        self.ident_or_keyword() && !self.reserved()
    }

    /// A word that can modify a declaration or a member.
    pub open spec fn modifier(self) -> bool {
        matches!(
            self,
            Kind::Abstract | Kind::Accessor | Kind::Async | Kind::Const | Kind::Declare
                | Kind::Default | Kind::Export | Kind::In | Kind::Out | Kind::Public
                | Kind::Static | Kind::Readonly | Kind::Private | Kind::Protected
                | Kind::Override
        )
    }

    pub fn is_identifier(self) -> (r: bool)
        ensures
            r == self.ident(),
    {
        self.is_identifier_or_keyword() && !matches!(
            self,
            Kind::Break | Kind::Case | Kind::Catch | Kind::Class | Kind::Const | Kind::Continue
                | Kind::Debugger | Kind::Default | Kind::Delete | Kind::Do | Kind::Else
                | Kind::Enum | Kind::Export | Kind::Extends | Kind::False | Kind::Finally
                | Kind::For | Kind::Function | Kind::If | Kind::Import | Kind::In
                | Kind::Instanceof | Kind::New | Kind::Null | Kind::Return | Kind::Super
                | Kind::Switch | Kind::This | Kind::Throw | Kind::True | Kind::Try
                | Kind::Typeof | Kind::Var | Kind::Void | Kind::While | Kind::With
        )
    }

    /// A name that a declaration can bind: an identifier.
    pub fn is_binding_identifier(self) -> (r: bool)
        ensures
            r == self.ident(),
    {
        self.is_identifier()
    }

    pub fn is_modifier_kind(self) -> (r: bool)
        ensures
            r == self.modifier(),
    {
        matches!(
            self,
            Kind::Abstract | Kind::Accessor | Kind::Async | Kind::Const | Kind::Declare
                | Kind::Default | Kind::Export | Kind::In | Kind::Out | Kind::Public
                | Kind::Static | Kind::Readonly | Kind::Private | Kind::Protected
                | Kind::Override
        )
    }

    /// A numeric literal.
    pub open spec fn number(self) -> bool {
        matches!(self, Kind::Decimal | Kind::Binary | Kind::Octal | Kind::Hex | Kind::BigInt)
    }

    pub fn is_number(self) -> (r: bool)
        ensures
            r == self.number(),
    {
        matches!(self, Kind::Decimal | Kind::Binary | Kind::Octal | Kind::Hex | Kind::BigInt)
    }

    pub fn is_identifier_or_keyword(self) -> (r: bool)
        ensures
            r == self.ident_or_keyword(),
    {
        self == Kind::Ident || self.is_any_keyword()
    }

    pub fn is_eof(self) -> (r: bool)
        ensures
            r == (self == Kind::Eof),
    {
        self == Kind::Eof
    }
}

/// One token: its kind, its byte span, whether a line break precedes it, and
/// whether it was spelled with a Unicode escape.
#[derive(Debug, Clone, Copy, PartialEq, Eq, Structural)]
pub struct Token {
    pub kind: Kind,
    pub start: u32,
    pub end: u32,
    pub on_new_line: bool,
    pub escaped: bool,
}

impl Token {
    pub open spec fn span_of(self) -> Span {
        Span { start: self.start, end: self.end }
    }

    pub fn span(&self) -> (r: Span)
        ensures
            r == self.span_of(),
    {
        Span { start: self.start, end: self.end }
    }
}

} // verus!
