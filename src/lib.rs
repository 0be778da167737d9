//! Error-recovering recursive-descent parsing machinery for ECMAScript and
//! TypeScript: grammar contexts, the cursor over a token stream with
//! checkpoints and speculative parses, and the synchronization engine that
//! decides, after a syntax error, whether to skip a token or leave a construct.
use vstd::prelude::*;

pub mod context;
pub mod cursor;
pub mod diagnostics;
pub mod driver;
pub mod lists;
pub mod lookahead;
pub mod prologue;
pub mod recovery;
pub mod state;
pub mod synchronization;
pub mod token;

verus! {

/// The largest source, in bytes, whose offsets a span can hold.
pub const MAX_LEN: u64 = 4294967295;

/// Options of one parse.
#[derive(Debug, Clone, Copy, PartialEq, Eq, Structural)]
pub struct ParseOptions {
    /// Parse the bodies of regular expression literals.
    pub parse_regular_expression: bool,
    /// Accept `return` outside a function.
    pub allow_return_outside_function: bool,
    /// Keep parenthesized expressions and types as nodes of their own.
    pub preserve_parens: bool,
    /// Accept V8 runtime calls (`%Identifier(...)`).
    pub allow_v8_intrinsics: bool,
    /// Record syntax errors and go on, instead of stopping at the first.
    pub recover_from_errors: bool,
}

impl Default for ParseOptions {
    fn default() -> (r: ParseOptions)
        ensures
            !r.parse_regular_expression,
            !r.allow_return_outside_function,
            r.preserve_parens,
            !r.allow_v8_intrinsics,
            !r.recover_from_errors,
    {
        ParseOptions {
            parse_regular_expression: false,
            allow_return_outside_function: false,
            preserve_parens: true,
            allow_v8_intrinsics: false,
            recover_from_errors: false,
        }
    }
}

/// The language of a source.
#[derive(Debug, Clone, Copy, PartialEq, Eq, Structural)]
pub enum Language {
    JavaScript,
    TypeScript,
    /// A TypeScript declaration file (`.d.ts`).
    TypeScriptDefinition,
}

/// Whether a source is a script or a module.
#[derive(Debug, Clone, Copy, PartialEq, Eq, Structural)]
pub enum ModuleKind {
    Script,
    Module,
    /// Decided after the parse: a module where import or export syntax was seen.
    Unambiguous,
}

/// The dialect of a source.
#[derive(Debug, Clone, Copy, PartialEq, Eq, Structural)]
pub struct SourceType {
    pub language: Language,
    pub module_kind: ModuleKind,
    pub jsx: bool,
}

/// A token that only the parser's own entry points make, so that one parser
/// at a time runs on a thread.
pub struct UniquePromise {
    unit: (),
}

impl UniquePromise {
    pub(crate) fn new() -> (r: UniquePromise) {
        UniquePromise { unit: () }
    }

    /// Makes a promise outside the parser's entry points, for tests and benchmarks.
    pub fn new_for_tests_and_benchmarks() -> (r: UniquePromise) {
        UniquePromise { unit: () }
    }
}

} // verus!
