use oxc_parser::context::{Context, ParsingContext};
use oxc_parser::cursor::ParserImpl;
use oxc_parser::diagnostics::{Diagnostic, DiagnosticKind, FatalError};
use oxc_parser::driver::{contains_bytes, is_flow_file, resolved_source_type};
use oxc_parser::synchronization::RecoveryDecision;
use oxc_parser::token::{Kind, Span, Token};
use oxc_parser::{Language, ModuleKind, ParseOptions, SourceType, UniquePromise};

fn tok(kind: Kind, start: u32, end: u32) -> Token {
    Token { kind, start, end, on_new_line: false, escaped: false }
}

fn script() -> SourceType {
    SourceType { language: Language::JavaScript, module_kind: ModuleKind::Script, jsx: false }
}

fn options(recover: bool) -> ParseOptions {
    ParseOptions { recover_from_errors: recover, ..ParseOptions::default() }
}

/// Tokens of `kinds`, each one byte long and one byte apart, then end of input.
fn stream(kinds: &[Kind]) -> (Vec<Token>, u32) {
    let mut toks = Vec::new();
    let mut at = 0u32;
    for k in kinds {
        toks.push(tok(*k, at, at + 1));
        at += 2;
    }
    toks.push(tok(Kind::Eof, at, at));
    (toks, at)
}

fn parser(kinds: &[Kind], recover: bool) -> ParserImpl {
    let (toks, len) = stream(kinds);
    ParserImpl::new(toks, len, script(), options(recover), UniquePromise::new_for_tests_and_benchmarks())
        .expect("well-formed token stream")
}

#[test]
fn malformed_token_streams_are_refused() {
    let unique = || UniquePromise::new_for_tests_and_benchmarks();
    assert!(ParserImpl::new(vec![], 0, script(), options(true), unique()).is_none());
    // no end of input
    assert!(ParserImpl::new(vec![tok(Kind::Ident, 0, 1)], 1, script(), options(true), unique()).is_none());
    // overlapping tokens
    let toks = vec![tok(Kind::Ident, 0, 3), tok(Kind::Ident, 2, 4), tok(Kind::Eof, 4, 4)];
    assert!(ParserImpl::new(toks, 4, script(), options(true), unique()).is_none());
    // end of input not at the end of the source
    let toks = vec![tok(Kind::Ident, 0, 1), tok(Kind::Eof, 1, 1)];
    assert!(ParserImpl::new(toks, 5, script(), options(true), unique()).is_none());
    let toks = vec![tok(Kind::Ident, 0, 1), tok(Kind::Eof, 5, 5)];
    assert!(ParserImpl::new(toks, 5, script(), options(true), unique()).is_some());
}

#[test]
fn initial_context_follows_source_type_and_options() {
    let module = SourceType { language: Language::TypeScriptDefinition, module_kind: ModuleKind::Module, jsx: false };
    let opts = ParseOptions { allow_return_outside_function: true, ..ParseOptions::default() };
    let ctx = ParserImpl::default_context(module, opts);
    assert!(ctx.has_in() && ctx.has_await() && ctx.has_ambient() && ctx.has_return());
    assert!(!ctx.has_yield() && !ctx.has_decorator() && !ctx.has_disallow_conditional_types());
    let ctx = ParserImpl::default_context(script(), ParseOptions::default());
    assert_eq!(ctx, Context::default());
}

#[test]
fn context_flag_operations() {
    let ctx = Context::default();
    assert!(ctx.has_in());
    let c2 = ctx.union_yield_if(true).union_await_if(false).and_in(false);
    assert!(c2.has_yield() && !c2.has_await() && !c2.has_in());
    let c3 = c2.and_decorator(true).union_ambient_if(true);
    assert!(c3.has_decorator() && c3.has_ambient());
    assert_eq!(c3.difference(c2), Context::empty().and_decorator(true).and_ambient(true));
    assert_eq!(c2.union(ctx), c2.and_in(true));
}

#[test]
fn eat_and_bump_move_past_matching_tokens_only() {
    let mut p = parser(&[Kind::Let, Kind::Ident], true);
    assert!(!p.eat(Kind::Const));
    assert_eq!(p.cur_kind(), Kind::Let);
    assert!(p.eat(Kind::Let));
    assert_eq!(p.cur_kind(), Kind::Ident);
    assert_eq!(p.prev_token_end, 1);
    p.bump(Kind::Comma);
    assert_eq!(p.cur_kind(), Kind::Ident);
    p.bump_any();
    assert!(p.at(Kind::Eof));
    p.bump_any();
    assert!(p.at(Kind::Eof));
    assert_eq!(p.end_span(0), Span::new(0, 4));
}

#[test]
fn escaped_keyword_is_reported_when_consumed() {
    let toks = vec![Token { kind: Kind::If, start: 0, end: 6, on_new_line: false, escaped: true }, tok(Kind::Eof, 6, 6)];
    let mut p = ParserImpl::new(toks, 6, script(), options(true), UniquePromise::new_for_tests_and_benchmarks()).unwrap();
    p.bump_any();
    assert_eq!(p.errors, vec![Diagnostic::new(DiagnosticKind::EscapedKeyword, Span::new(0, 6))]);
}

#[test]
fn expect_records_and_advances_in_recovery_mode() {
    let mut p = parser(&[Kind::Ident, Kind::Semicolon], true);
    p.expect(Kind::LParen);
    assert_eq!(p.errors.len(), 1);
    assert_eq!(
        p.errors[0],
        Diagnostic::new(DiagnosticKind::ExpectToken { expected: Kind::LParen, found: Kind::Ident }, Span::new(0, 1))
    );
    assert!(p.fatal_error.is_none());
    assert_eq!(p.cur_kind(), Kind::Semicolon);
}

#[test]
fn expect_is_fatal_without_recovery() {
    let mut p = parser(&[Kind::Ident, Kind::Semicolon], false);
    p.expect(Kind::LParen);
    assert!(p.errors.is_empty());
    let d = Diagnostic::new(DiagnosticKind::ExpectToken { expected: Kind::LParen, found: Kind::Ident }, Span::new(0, 1));
    assert_eq!(p.fatal_error, Some(FatalError { error: d, errors_len: 0 }));
    // one token is consumed, as with recovery
    assert_eq!(p.cur_kind(), Kind::Semicolon);
    // a second failure keeps the first fatal diagnostic
    p.expect(Kind::RParen);
    assert_eq!(p.fatal_error, Some(FatalError { error: d, errors_len: 0 }));
}

#[test]
fn parentheses_are_tracked_and_unclosed_ones_reported() {
    let mut p = parser(&[Kind::LParen, Kind::LParen, Kind::Ident, Kind::RParen, Kind::Semicolon], true);
    p.expect(Kind::LParen);
    p.expect(Kind::LParen);
    assert_eq!(p.state.paren_stack, vec![Span::new(0, 1), Span::new(2, 3)]);
    p.bump_any();
    p.expect_closing(Kind::RParen, Span::new(2, 3));
    assert_eq!(p.state.paren_stack, vec![Span::new(0, 1)]);
    assert!(p.errors.is_empty());
    p.check_unclosed_parens();
    assert_eq!(
        p.errors,
        vec![Diagnostic::new(DiagnosticKind::UnclosedParen { opening: Span::new(0, 1) }, Span::new(8, 9))]
    );
    assert!(p.state.paren_stack.is_empty());
}

#[test]
fn missing_closer_still_closes_the_parenthesis() {
    let mut p = parser(&[Kind::LParen, Kind::Ident, Kind::LCurly], true);
    p.expect(Kind::LParen);
    p.bump_any();
    p.expect_closing(Kind::RParen, Span::new(0, 1));
    assert!(p.state.paren_stack.is_empty());
    assert_eq!(
        p.errors,
        vec![Diagnostic::new(
            DiagnosticKind::ExpectClosing { expected: Kind::RParen, found: Kind::LCurly, opening: Span::new(0, 1) },
            Span::new(4, 5)
        )]
    );
    assert!(p.at(Kind::Eof));
}

#[test]
fn conditional_alternative_is_required() {
    let mut p = parser(&[Kind::Ident, Kind::Colon], true);
    p.expect_conditional_alternative(Span::new(9, 10));
    assert_eq!(
        p.errors,
        vec![Diagnostic::new(
            DiagnosticKind::ExpectConditionalAlternative { found: Kind::Ident, question: Span::new(9, 10) },
            Span::new(0, 1)
        )]
    );
    p.expect_conditional_alternative(Span::new(9, 10));
    assert_eq!(p.errors.len(), 1);
    assert!(p.at(Kind::Eof));
}

#[test]
fn automatic_semicolon_insertion() {
    let mut p = parser(&[Kind::Semicolon, Kind::RCurly], true);
    p.asi();
    assert_eq!(p.cur_kind(), Kind::RCurly);
    p.asi();
    assert_eq!(p.cur_kind(), Kind::RCurly);
    assert!(p.errors.is_empty());

    let toks = vec![tok(Kind::Ident, 0, 1), Token { kind: Kind::Ident, start: 2, end: 3, on_new_line: true, escaped: false }, tok(Kind::Ident, 4, 5), tok(Kind::Eof, 5, 5)];
    let mut p = ParserImpl::new(toks, 5, script(), options(true), UniquePromise::new_for_tests_and_benchmarks()).unwrap();
    p.bump_any();
    p.asi();
    assert!(p.errors.is_empty());
    p.bump_any();
    p.asi();
    assert_eq!(p.errors, vec![Diagnostic::new(DiagnosticKind::AutoSemicolonInsertion, Span::empty(3))]);
}

#[test]
fn checkpoint_then_rewind_restores_the_cursor() {
    let mut p = parser(&[Kind::Ident, Kind::Comma, Kind::Ident], true);
    p.bump_any();
    let ck = p.checkpoint();
    p.bump_any();
    p.expect(Kind::Semicolon);
    assert_eq!(p.errors.len(), 1);
    p.rewind(ck);
    assert_eq!(p.cur_kind(), Kind::Comma);
    assert_eq!(p.pos, 1);
    assert_eq!(p.prev_token_end, 1);
    assert!(p.errors.is_empty());

    let ck = p.checkpoint();
    p.rewind(ck);
    assert_eq!(p.cur_kind(), Kind::Comma);
    assert_eq!(p.pos, 1);
}

#[test]
fn speculative_parse_commits_only_without_diagnostics() {
    let mut p = parser(&[Kind::Ident, Kind::Comma, Kind::Ident], true);
    let ctx = p.ctx;
    let ck = p.checkpoint_with_error_recovery();
    p.bump_any();
    assert!(p.finish_try_parse(ck, ctx));
    assert_eq!(p.cur_kind(), Kind::Comma);

    let ck = p.checkpoint_with_error_recovery();
    p.ctx = p.ctx.and_yield(true);
    p.expect(Kind::Semicolon);
    assert!(!p.finish_try_parse(ck, ctx));
    assert_eq!(p.cur_kind(), Kind::Comma);
    assert!(p.errors.is_empty());
    assert_eq!(p.ctx, ctx);
}

#[test]
fn terminators_and_element_starts() {
    let mut p = parser(&[Kind::RCurly, Kind::Case, Kind::Semicolon], true);
    assert!(p.is_context_terminator(ParsingContext::BlockStatements));
    assert!(!p.is_context_terminator(ParsingContext::ArrayLiteralMembers));
    p.bump_any();
    assert!(p.is_context_terminator(ParsingContext::SwitchClauses));
    assert!(p.is_context_element_start(ParsingContext::SwitchClauses, true));
    p.bump_any();
    assert!(p.is_context_element_start(ParsingContext::BlockStatements, false));
    assert!(!p.is_context_element_start(ParsingContext::BlockStatements, true));
    assert!(p.is_context_terminator(ParsingContext::ArgumentExpressions));

    let q = parser(&[Kind::RCurly], false);
    assert!(!q.is_context_terminator(ParsingContext::BlockStatements));
    assert!(!q.is_in_some_parsing_context());
}

#[test]
fn synchronization_skips_meaningless_tokens_and_aborts_on_owned_ones() {
    // `#` means nothing in a class body inside the program: skipped
    let mut p = parser(&[Kind::Hash, Kind::RCurly], true);
    p.context_stack.push(ParsingContext::ClassMembers);
    let start = p.cur_token().start;
    assert!(!p.is_in_some_parsing_context());
    assert_eq!(p.synchronize_on_error(ParsingContext::ClassMembers), RecoveryDecision::Skip);
    assert!(p.cur_token().start > start);
    // `}` ends the class body
    assert_eq!(p.synchronize_on_error(ParsingContext::ClassMembers), RecoveryDecision::Abort);
    assert_eq!(p.cur_kind(), Kind::RCurly);

    // `)` belongs to an enclosing parameter list
    let mut p = parser(&[Kind::RParen], true);
    p.context_stack.push(ParsingContext::Parameters);
    p.context_stack.push(ParsingContext::ArrayLiteralMembers);
    assert!(p.is_in_some_parsing_context());
    assert_eq!(p.synchronize_on_error(ParsingContext::ArrayLiteralMembers), RecoveryDecision::Abort);
    assert_eq!(p.cur_kind(), Kind::RParen);

    // without recovery the construct is always left
    let mut p = parser(&[Kind::Hash], false);
    assert_eq!(p.synchronize_on_error(ParsingContext::TopLevel), RecoveryDecision::Abort);
    assert_eq!(p.cur_kind(), Kind::Hash);
}

#[test]
fn one_bad_member_costs_one_diagnostic() {
    let mut p = parser(&[Kind::Hash, Kind::Case, Kind::RCurly], true);
    p.context_stack.push(ParsingContext::SwitchClauses);
    assert!(p.synchronize_list(ParsingContext::SwitchClauses));
    assert_eq!(p.cur_kind(), Kind::Case);
    assert_eq!(
        p.errors,
        vec![Diagnostic::new(
            DiagnosticKind::ExpectMember { context: ParsingContext::SwitchClauses, found: Kind::Hash },
            Span::new(0, 1)
        )]
    );
    p.bump_any();
    assert!(!p.synchronize_list(ParsingContext::SwitchClauses));
    assert_eq!(p.errors.len(), 1);
}

#[test]
fn member_recovery_aborts_on_token_of_enclosing_block() {
    let mut p = parser(&[Kind::Let, Kind::RCurly], true);
    p.context_stack.push(ParsingContext::BlockStatements);
    p.context_stack.push(ParsingContext::SwitchClauses);
    assert_eq!(p.recover_unexpected_member(ParsingContext::SwitchClauses), RecoveryDecision::Abort);
    assert_eq!(p.cur_kind(), Kind::Let);
    assert_eq!(p.errors.len(), 1);
}

#[test]
fn fatal_diagnostic_is_surfaced_alone() {
    let mut p = parser(&[Kind::Ident], false);
    p.expect(Kind::LParen);
    let out = p.finish(vec![], 3, b"abc", None);
    assert!(out.panicked);
    assert!(out.program_discarded);
    assert_eq!(out.errors.len(), 1);
    assert_eq!(out.errors[0].kind, DiagnosticKind::ExpectToken { expected: Kind::LParen, found: Kind::Ident });
}

#[test]
fn recovered_parse_keeps_all_diagnostics_in_order() {
    let mut p = parser(&[Kind::Ident, Kind::Ident], true);
    p.expect(Kind::LParen);
    p.expect(Kind::RParen);
    let lexer = vec![Diagnostic::new(DiagnosticKind::UnexpectedToken { found: Kind::Undetermined }, Span::new(0, 0))];
    let out = p.finish(lexer.clone(), 4, b"a  b", None);
    assert!(!out.panicked);
    assert_eq!(out.errors.len(), 3);
    assert_eq!(out.errors[0], lexer[0]);
}

#[test]
fn overlong_source_yields_one_diagnostic() {
    let p = parser(&[Kind::Ident], true);
    let out = p.finish(vec![], 5_000_000_000usize, b"", None);
    assert!(out.panicked);
    assert_eq!(out.errors, vec![Diagnostic::new(DiagnosticKind::OverlongSource, Span::empty(0))]);
}

#[test]
fn flow_files_are_recognised() {
    let src = b"// @flow\nx y";
    let comment = Some(Span::new(0, 8));
    assert!(is_flow_file(script(), src, comment));
    let ts = SourceType { language: Language::TypeScript, ..script() };
    assert!(!is_flow_file(ts, src, comment));
    assert!(!is_flow_file(script(), src, Some(Span::new(0, 3))));
    assert!(contains_bytes(b"abc@flow", b"@flow"));
    assert!(!contains_bytes(b"@flo", b"@flow"));

    let mut p = parser(&[Kind::Ident, Kind::Ident], true);
    p.asi();
    let out = p.finish(vec![], src.len(), src, comment);
    assert!(out.is_flow_language);
    assert_eq!(out.errors, vec![Diagnostic::new(DiagnosticKind::Flow, Span::new(0, 8))]);
}

#[test]
fn unambiguous_sources_are_resolved() {
    let st = SourceType { module_kind: ModuleKind::Unambiguous, ..script() };
    assert_eq!(resolved_source_type(st, true).module_kind, ModuleKind::Module);
    assert_eq!(resolved_source_type(st, false).module_kind, ModuleKind::Script);
    assert_eq!(resolved_source_type(script(), true).module_kind, ModuleKind::Script);
}

#[test]
fn hashbang_is_consumed_with_its_text() {
    let toks = vec![tok(Kind::HashbangComment, 0, 11), tok(Kind::Ident, 12, 13), tok(Kind::Eof, 13, 13)];
    let mut p = ParserImpl::new(toks, 13, script(), options(true), UniquePromise::new_for_tests_and_benchmarks()).unwrap();
    assert_eq!(p.parse_hashbang(), Some((Span::new(0, 11), Span::new(2, 11))));
    assert_eq!(p.cur_kind(), Kind::Ident);
    assert_eq!(p.parse_hashbang(), None);
    assert_eq!(p.cur_kind(), Kind::Ident);
}

#[test]
fn recovery_never_sets_a_fatal_diagnostic() {
    let mut p = parser(&[Kind::Ident, Kind::Ident], true);
    p.expect(Kind::LParen);
    p.expect_closing(Kind::RBrack, Span::new(0, 0));
    p.asi();
    assert!(p.fatal_error.is_none());
    let out = p.finish(vec![], 3, b"a b", None);
    assert!(!out.panicked);
    assert_eq!(out.errors.len(), 2);
}

#[test]
fn failed_semicolon_insertion_without_recovery_keeps_the_token() {
    let mut p = parser(&[Kind::Ident, Kind::Ident], false);
    p.bump_any();
    p.asi();
    assert_eq!(p.cur_kind(), Kind::Ident);
    assert_eq!(p.pos, 1);
    assert!(p.fatal_error.is_some());
    assert!(p.errors.is_empty());
}

#[test]
fn expecting_a_missing_paren_records_it() {
    // `if x)`: the missing `(` is taken as inserted, so the `)` closes it
    let mut p = parser(&[Kind::Ident, Kind::RParen], true);
    p.context_stack.push(ParsingContext::Parameters);
    p.state.paren_stack.push(Span::new(9, 10));
    p.expect(Kind::LParen);
    assert_eq!(p.state.paren_stack, vec![Span::new(9, 10), Span::new(0, 1)]);
    p.expect_closing(Kind::RParen, Span::new(0, 1));
    assert_eq!(p.state.paren_stack, vec![Span::new(9, 10)]);
}

#[test]
fn fatal_diagnostic_is_surfaced_after_lexer_errors() {
    let mut p = parser(&[Kind::Ident], false);
    p.expect(Kind::LParen);
    assert!(p.at(Kind::Eof));
    let lexer = vec![Diagnostic::new(DiagnosticKind::UnexpectedToken { found: Kind::Undetermined }, Span::new(0, 0))];
    let out = p.finish(lexer, 3, b"abc", None);
    assert_eq!(out.errors.len(), 2);
    assert_eq!(out.errors[1].kind, DiagnosticKind::ExpectToken { expected: Kind::LParen, found: Kind::Ident });
}

#[test]
fn escaped_keyword_is_fatal_without_recovery() {
    let toks = vec![Token { kind: Kind::If, start: 0, end: 6, on_new_line: false, escaped: true }, tok(Kind::Eof, 6, 6)];
    let mut p = ParserImpl::new(toks, 6, script(), options(false), UniquePromise::new_for_tests_and_benchmarks()).unwrap();
    p.bump_any();
    assert!(p.errors.is_empty());
    assert_eq!(p.fatal_error.unwrap().error, Diagnostic::new(DiagnosticKind::EscapedKeyword, Span::new(0, 6)));
}

#[test]
fn entered_contexts_are_left_balanced() {
    let mut p = parser(&[Kind::Ident], true);
    p.enter_context(ParsingContext::BlockStatements);
    p.enter_context(ParsingContext::Parameters);
    assert_eq!(p.current_context(), ParsingContext::Parameters);
    assert_eq!(p.leave_context(), Some(ParsingContext::Parameters));
    assert_eq!(p.leave_context(), Some(ParsingContext::BlockStatements));
    assert_eq!(p.leave_context(), None);
    assert_eq!(p.context_stack.depth(), 1);
    let mut q = parser(&[Kind::Ident], false);
    q.enter_context(ParsingContext::BlockStatements);
    assert_eq!(q.context_stack.depth(), 1);
}

#[test]
fn statement_keywords_begin_block_statements() {
    // `{ debugger; with (o) {} import("m"); enum E {} }` in recovery mode
    for k in [Kind::Debugger, Kind::With, Kind::Import, Kind::Enum] {
        let mut p = parser(&[k, Kind::Semicolon, Kind::RCurly], true);
        p.enter_context(ParsingContext::BlockStatements);
        assert!(p.is_context_element_start(ParsingContext::BlockStatements, true));
        assert!(p.synchronize_list(ParsingContext::BlockStatements));
        assert!(p.errors.is_empty());
        p.enter_context(ParsingContext::FunctionBody);
        assert!(p.synchronize_list(ParsingContext::FunctionBody));
    }
    // `import("m")` as an argument
    let p = parser(&[Kind::Import, Kind::LParen], true);
    assert!(p.is_context_element_start(ParsingContext::ArgumentExpressions, true));
}

#[test]
fn list_synchronization_reports_each_skipped_token_once() {
    // `# # x` in a switch body at the top level: every token is skipped and reported
    let toks = vec![
        tok(Kind::Hash, 0, 1),
        Token { kind: Kind::Hash, start: 2, end: 3, on_new_line: false, escaped: false },
        tok(Kind::Ident, 4, 5),
        tok(Kind::Eof, 5, 5),
    ];
    let mut p = ParserImpl::new(toks, 5, script(), options(true), UniquePromise::new_for_tests_and_benchmarks()).unwrap();
    p.enter_context(ParsingContext::SwitchClauses);
    let member = |s: u32| {
        Diagnostic::new(DiagnosticKind::ExpectMember { context: ParsingContext::SwitchClauses, found: Kind::Hash }, Span::new(s, s + 1))
    };
    assert!(!p.synchronize_list(ParsingContext::SwitchClauses));
    assert!(p.at(Kind::Eof));
    assert_eq!(p.errors.len(), 3);
    assert_eq!(p.errors[0], member(0));
    assert_eq!(p.errors[1], member(2));

    // left at a token an enclosing block can use: that token is reported once
    let mut p = parser(&[Kind::Hash, Kind::Let, Kind::RCurly], true);
    p.enter_context(ParsingContext::BlockStatements);
    p.enter_context(ParsingContext::SwitchClauses);
    assert!(!p.synchronize_list(ParsingContext::SwitchClauses));
    assert!(p.at(Kind::Let));
    assert_eq!(p.errors.len(), 2);
    assert_eq!(p.errors[1].kind, DiagnosticKind::ExpectMember { context: ParsingContext::SwitchClauses, found: Kind::Let });

    // left at the closer: nothing reported for it
    let mut p = parser(&[Kind::RCurly], true);
    p.enter_context(ParsingContext::SwitchClauses);
    assert!(!p.synchronize_list(ParsingContext::SwitchClauses));
    assert!(p.errors.is_empty());
}

#[test]
fn no_parenthesis_is_recorded_without_recovery() {
    let mut p = parser(&[Kind::LParen, Kind::Ident], false);
    p.expect(Kind::LParen);
    assert!(p.state.paren_stack.is_empty());
    p.check_unclosed_parens();
    assert!(p.state.paren_stack.is_empty());
}

#[test]
fn lookahead_runs_once_and_restores() {
    let mut p = parser(&[Kind::Ident, Kind::Comma, Kind::Ident], true);
    p.bump_any();
    let (p, seen) = p.lookahead(|q| {
        let mut q = q;
        q.bump_any();
        q.expect(Kind::Semicolon);
        let k = q.cur_kind();
        (q, k)
    });
    assert_eq!(seen, Kind::Eof);
    assert_eq!(p.cur_kind(), Kind::Comma);
    assert_eq!(p.pos, 1);
    assert_eq!(p.prev_token_end, 1);
    assert!(p.errors.is_empty());
}

#[test]
fn try_parse_keeps_clean_work_and_rewinds_failed_work() {
    let p = parser(&[Kind::Ident, Kind::Comma, Kind::Ident], true);
    let (p, kept) = p.try_parse(|q| {
        let mut q = q;
        q.bump_any();
        (q, 7)
    });
    assert_eq!(kept, Some(7));
    assert_eq!(p.cur_kind(), Kind::Comma);

    let ctx = p.ctx;
    let (p, failed) = p.try_parse(|q| {
        let mut q = q;
        q.ctx = q.ctx.and_yield(true);
        q.expect(Kind::Semicolon);
        (q, 8)
    });
    assert_eq!(failed, None);
    assert_eq!(p.cur_kind(), Kind::Comma);
    assert!(p.errors.is_empty());
    assert_eq!(p.ctx, ctx);
}
