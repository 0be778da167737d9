use oxc_parser::context::ParsingContext;
use oxc_parser::cursor::ParserImpl;
use oxc_parser::diagnostics::{Diagnostic, DiagnosticKind};
use oxc_parser::lists::{ListStep, MAX_PARAMETERS};
use oxc_parser::prologue::{directive_prologue, StatementHead};
use oxc_parser::recovery::{function_body_required, ComputedName, FunctionKind, Placeholder, PlaceholderName};
use oxc_parser::token::{Kind, Span, Token};
use oxc_parser::{Language, ModuleKind, ParseOptions, SourceType, UniquePromise};

fn ts() -> SourceType {
    SourceType { language: Language::TypeScript, module_kind: ModuleKind::Module, jsx: false }
}

/// A parser over `kinds`, each token one byte long and one byte apart;
/// `new_lines` lists the indices of tokens that follow a line break.
fn parser_nl(kinds: &[Kind], new_lines: &[usize], recover: bool) -> ParserImpl {
    let mut toks = Vec::new();
    let mut at = 0u32;
    for (i, k) in kinds.iter().enumerate() {
        toks.push(Token { kind: *k, start: at, end: at + 1, on_new_line: new_lines.contains(&i), escaped: false });
        at += 2;
    }
    toks.push(Token { kind: Kind::Eof, start: at, end: at, on_new_line: false, escaped: false });
    let options = ParseOptions { recover_from_errors: recover, ..ParseOptions::default() };
    ParserImpl::new(toks, at, ts(), options, UniquePromise::new_for_tests_and_benchmarks()).unwrap()
}

fn parser(kinds: &[Kind]) -> ParserImpl {
    parser_nl(kinds, &[], true)
}

#[test]
fn index_signatures_are_told_from_computed_names() {
    let mut p = parser(&[Kind::LBrack, Kind::Ident, Kind::Colon]);
    assert!(p.is_index_signature());
    assert_eq!(p.pos, 0);
    assert!(parser(&[Kind::LBrack, Kind::Dot3]).is_index_signature());
    assert!(parser(&[Kind::LBrack, Kind::Public, Kind::Ident]).is_index_signature());
    assert!(parser(&[Kind::LBrack, Kind::Ident, Kind::Question, Kind::RBrack]).is_index_signature());
    assert!(!parser(&[Kind::LBrack, Kind::Ident, Kind::RBrack]).is_index_signature());
    assert!(!parser(&[Kind::LBrack, Kind::Str, Kind::RBrack]).is_index_signature());
    assert!(!parser(&[Kind::Ident, Kind::Colon]).is_index_signature());
}

#[test]
fn typescript_declaration_starts() {
    assert!(parser(&[Kind::Declare, Kind::Const]).at_start_of_ts_declaration());
    assert!(parser(&[Kind::Interface, Kind::Ident]).at_start_of_ts_declaration());
    assert!(!parser_nl(&[Kind::Interface, Kind::Ident], &[1], true).at_start_of_ts_declaration());
    assert!(parser(&[Kind::Export, Kind::Type, Kind::LCurly]).at_start_of_ts_declaration());
    assert!(parser(&[Kind::Export, Kind::Static, Kind::Class]).at_start_of_ts_declaration());
    assert!(!parser_nl(&[Kind::Abstract, Kind::Class], &[1], true).at_start_of_ts_declaration());
    assert!(parser(&[Kind::Module, Kind::Str]).at_start_of_ts_declaration());
    assert!(parser(&[Kind::Global, Kind::LCurly]).at_start_of_ts_declaration());
    assert!(!parser(&[Kind::Ident, Kind::Class]).at_start_of_ts_declaration());
    assert!(!parser(&[Kind::Static]).at_start_of_ts_declaration());
    let mut p = parser(&[Kind::Async, Kind::Async, Kind::Function]);
    assert!(p.at_start_of_ts_declaration());
    assert_eq!(p.pos, 0);
    assert!(p.errors.is_empty());
}

#[test]
fn await_using_and_async_function() {
    assert!(parser(&[Kind::Await, Kind::Using, Kind::Ident]).at_await_using());
    assert!(!parser_nl(&[Kind::Await, Kind::Using, Kind::Ident], &[2], true).at_await_using());
    assert!(!parser(&[Kind::Await, Kind::Ident]).at_await_using());
    assert!(parser(&[Kind::Async, Kind::Function]).at_function_with_async());
    assert!(!parser_nl(&[Kind::Async, Kind::Function], &[1], true).at_function_with_async());
    assert!(parser(&[Kind::Function]).at_function_with_async());
}

#[test]
fn numeric_and_template_enum_names_get_placeholders() {
    let source = b"12 `t` x";
    let toks = vec![
        Token { kind: Kind::Decimal, start: 0, end: 2, on_new_line: false, escaped: false },
        Token { kind: Kind::NoSubstitutionTemplate, start: 3, end: 6, on_new_line: false, escaped: false },
        Token { kind: Kind::Ident, start: 7, end: 8, on_new_line: false, escaped: false },
        Token { kind: Kind::Eof, start: 8, end: 8, on_new_line: false, escaped: false },
    ];
    let options = ParseOptions { recover_from_errors: true, ..ParseOptions::default() };
    let mut p = ParserImpl::new(toks, 8, ts(), options, UniquePromise::new_for_tests_and_benchmarks()).unwrap();
    let numeric = p.recover_enum_member_name().unwrap();
    assert_eq!(numeric, Placeholder { name: PlaceholderName::NumericEnumMember, span: Span::new(0, 2) });
    assert_eq!(numeric.text(source), b"_12".to_vec());
    let template = p.recover_enum_member_name().unwrap();
    assert_eq!(template.text(source), b"__template__".to_vec());
    assert!(p.recover_enum_member_name().is_none());
    assert_eq!(p.cur_kind(), Kind::Ident);
    assert_eq!(
        p.errors,
        vec![
            Diagnostic::new(DiagnosticKind::EnumMemberNumericName, Span::new(0, 2)),
            Diagnostic::new(DiagnosticKind::ComputedEnumMemberName, Span::new(3, 6)),
        ]
    );
    let computed = Placeholder { name: PlaceholderName::ComputedEnumMember, span: Span::new(0, 2) };
    assert_eq!(computed.text(source), b"__computed__".to_vec());
}

#[test]
fn numeric_enum_name_is_fatal_without_recovery() {
    let mut p = parser_nl(&[Kind::Decimal], &[], false);
    assert!(p.recover_enum_member_name().is_none());
    assert!(p.fatal_error.is_some());
    assert!(p.errors.is_empty());
}

#[test]
fn malformed_catch_parameter_becomes_e() {
    let mut p = parser(&[Kind::Decimal, Kind::Plus, Kind::RParen, Kind::LCurly]);
    let dummy = p.recover_catch_parameter().unwrap();
    assert_eq!(dummy, Placeholder { name: PlaceholderName::CatchBinding, span: Span::new(0, 3) });
    assert_eq!(dummy.text(b"1 + )"), b"e".to_vec());
    assert_eq!(p.cur_kind(), Kind::RParen);
    assert_eq!(p.errors, vec![Diagnostic::new(DiagnosticKind::ExpectCatchParameter, Span::new(0, 1))]);

    let mut p = parser(&[Kind::Ident, Kind::RParen]);
    assert!(p.recover_catch_parameter().is_none());
    assert_eq!(p.pos, 0);
    let dummy = parser(&[Kind::Comma]).create_dummy_parameter();
    assert_eq!(dummy.text(b"x"), b"__invalid_param__".to_vec());
}

#[test]
fn directive_prologue_and_use_strict() {
    let source = b"'a'; \"use strict\"; x; 'b';";
    let stmts = [
        StatementHead { start: 0, string_literal: Some(Span::new(0, 3)) },
        StatementHead { start: 5, string_literal: Some(Span::new(5, 17)) },
        StatementHead { start: 19, string_literal: None },
        StatementHead { start: 22, string_literal: Some(Span::new(22, 25)) },
    ];
    assert_eq!(directive_prologue(&stmts, source), (2, true));
    // a parenthesized string is no directive
    let stmts = [StatementHead { start: 0, string_literal: Some(Span::new(1, 13)) }];
    assert_eq!(directive_prologue(&stmts, b"(\"use strict\")"), (0, false));
    assert_eq!(directive_prologue(&[], b""), (0, false));
}

#[test]
fn delimited_list_steps() {
    // (a, b,)
    let mut p = parser(&[Kind::Ident, Kind::Comma, Kind::Ident, Kind::Comma, Kind::RParen]);
    let open = Span::new(0, 0);
    let args = ParsingContext::ArgumentExpressions;
    p.context_stack.push(args);
    assert_eq!(p.next_delimited_step(args, Kind::RParen, Kind::Comma, open, true), ListStep::Element);
    p.bump_any();
    assert_eq!(p.next_delimited_step(args, Kind::RParen, Kind::Comma, open, false), ListStep::Element);
    p.bump_any();
    assert_eq!(p.next_delimited_step(args, Kind::RParen, Kind::Comma, open, false), ListStep::Done { trailing: Some(6) });
    assert!(p.errors.is_empty());

    // (a b): `b` can begin an argument, so the list is left
    let mut p = parser(&[Kind::Ident, Kind::Ident, Kind::RParen]);
    p.context_stack.push(args);
    p.bump_any();
    assert_eq!(p.next_delimited_step(args, Kind::RParen, Kind::Comma, open, false), ListStep::Done { trailing: None });
    assert_eq!(
        p.errors,
        vec![Diagnostic::new(
            DiagnosticKind::ExpectClosingOrSeparator { close: Kind::RParen, separator: Kind::Comma, found: Kind::Ident, opening: open },
            Span::new(2, 3)
        )]
    );
}

#[test]
fn binding_list_steps_with_rest() {
    let open = Span::new(0, 0);
    // [a, ...r, b]
    let mut p = parser(&[Kind::Ident, Kind::Comma, Kind::Dot3, Kind::Comma, Kind::Ident, Kind::RBrack]);
    let last = DiagnosticKind::RestElementLast;
    let arr = ParsingContext::ArrayLiteralMembers;
    p.context_stack.push(arr);
    assert_eq!(p.next_binding_list_step(arr, Kind::RBrack, open, true, None, last), ListStep::Element);
    p.bump_any();
    assert_eq!(p.next_binding_list_step(arr, Kind::RBrack, open, false, None, last), ListStep::Rest);
    p.bump_any();
    let rest = Some(Span::new(4, 5));
    assert_eq!(p.next_binding_list_step(arr, Kind::RBrack, open, false, rest, last), ListStep::Done { trailing: None });
    assert_eq!(p.errors, vec![Diagnostic::new(DiagnosticKind::RestElementLast, Span::new(4, 5))]);

    // [...r, # ]: `#` after the rest element is reported and skipped
    let mut p = parser(&[Kind::Dot3, Kind::Comma, Kind::Hash, Kind::RBrack]);
    p.context_stack.push(arr);
    p.bump_any();
    assert_eq!(p.next_binding_list_step(arr, Kind::RBrack, open, false, Some(Span::new(0, 1)), last), ListStep::Again);
    assert_eq!(p.cur_kind(), Kind::RBrack);
    assert_eq!(p.errors, vec![Diagnostic::new(DiagnosticKind::RestElementLast, Span::new(0, 1))]);

    // [...r,]
    let mut p = parser(&[Kind::Dot3, Kind::Comma, Kind::RBrack]);
    p.context_stack.push(arr);
    assert_eq!(p.next_binding_list_step(arr, Kind::RBrack, open, true, None, last), ListStep::Rest);
    p.bump_any();
    assert_eq!(p.next_binding_list_step(arr, Kind::RBrack, open, false, Some(Span::new(0, 1)), last), ListStep::Done { trailing: None });
    assert_eq!(p.errors, vec![Diagnostic::new(DiagnosticKind::RestElementTrailingComma, Span::new(2, 3))]);
    assert_eq!(p.cur_kind(), Kind::RBrack);
}

#[test]
fn token_source_slices() {
    let source = b"let x";
    let toks = vec![
        Token { kind: Kind::Let, start: 0, end: 3, on_new_line: false, escaped: false },
        Token { kind: Kind::Ident, start: 4, end: 5, on_new_line: false, escaped: false },
        Token { kind: Kind::Eof, start: 5, end: 5, on_new_line: false, escaped: false },
    ];
    let p = ParserImpl::new(toks.clone(), 5, ts(), ParseOptions::default(), UniquePromise::new_for_tests_and_benchmarks()).unwrap();
    assert_eq!(p.cur_src(source), b"let");
    assert_eq!(p.token_source(source, &toks[1]), b"x");
}

#[test]
fn parameter_list_steps_synchronize() {
    let open = Span::new(0, 0);
    // (a # b) inside a parameter list: `#` is skipped, then `b` fails the comma again
    let mut p = parser(&[Kind::Ident, Kind::Hash, Kind::Ident, Kind::RParen]);
    p.context_stack.push(ParsingContext::Parameters);
    assert_eq!(p.next_parameter_step(open, true, None, 0), ListStep::Element);
    p.bump_any();
    assert_eq!(p.next_parameter_step(open, false, None, 1), ListStep::Again);
    assert_eq!(p.cur_kind(), Kind::Ident);
    // an identifier can begin a parameter: the list is left
    assert_eq!(p.next_parameter_step(open, false, None, 2), ListStep::Done { trailing: None });
    assert_eq!(p.errors.len(), 2);
    assert_eq!(p.cur_kind(), Kind::Ident);

    // (...r, a)
    let mut p = parser(&[Kind::Dot3, Kind::Comma, Kind::Ident, Kind::RParen]);
    p.context_stack.push(ParsingContext::Parameters);
    assert_eq!(p.next_parameter_step(open, true, None, 0), ListStep::Rest);
    p.bump_any();
    let step = p.next_parameter_step(open, false, Some(Span::new(0, 1)), 1);
    assert_eq!(step, ListStep::Done { trailing: None });
    assert_eq!(p.errors, vec![Diagnostic::new(DiagnosticKind::RestParameterLast, Span::new(0, 1))]);

    // too many steps
    let mut p = parser(&[Kind::Ident]);
    assert_eq!(p.next_parameter_step(open, false, None, MAX_PARAMETERS), ListStep::Done { trailing: None });
    assert_eq!(p.errors.len(), 1);
}

#[test]
fn enum_member_steps_synchronize() {
    let open = Span::new(0, 0);
    // { A # , B }
    let mut p = parser(&[Kind::Ident, Kind::Hash, Kind::Comma, Kind::Ident, Kind::RCurly]);
    p.context_stack.push(ParsingContext::EnumMembers);
    let ctx = ParsingContext::EnumMembers;
    assert_eq!(p.next_delimited_step(ctx, Kind::RCurly, Kind::Comma, open, true), ListStep::Element);
    p.bump_any();
    assert_eq!(p.next_delimited_step(ctx, Kind::RCurly, Kind::Comma, open, false), ListStep::Again);
    assert_eq!(p.next_delimited_step(ctx, Kind::RCurly, Kind::Comma, open, false), ListStep::Element);
    assert_eq!(p.cur_kind(), Kind::Ident);
    assert_eq!(p.errors.len(), 1);
    p.bump_any();
    assert_eq!(
        p.next_delimited_step(ctx, Kind::RCurly, Kind::Comma, open, false),
        ListStep::Done { trailing: None }
    );
}

#[test]
fn try_without_handler_gets_placeholder_catch() {
    let mut p = parser(&[Kind::Ident]);
    let binding = p.recover_missing_handler(7, false, false).unwrap();
    assert_eq!(binding, Placeholder { name: PlaceholderName::CatchBinding, span: Span::empty(7) });
    assert_eq!(binding.text(b"try {} x"), b"e".to_vec());
    assert_eq!(p.errors, vec![Diagnostic::new(DiagnosticKind::ExpectCatchFinally, Span::empty(7))]);
    assert_eq!(p.recover_missing_handler(7, true, false), None);
    assert_eq!(p.errors.len(), 1);
    let mut q = parser_nl(&[Kind::Ident], &[], false);
    assert_eq!(q.recover_missing_handler(3, false, false), None);
    assert!(q.errors.is_empty());
    assert_eq!(q.fatal_error.unwrap().error, Diagnostic::new(DiagnosticKind::ExpectCatchFinally, Span::empty(3)));
}

#[test]
fn orphaned_catch_and_finally_are_skipped() {
    // catch (e x) { }
    let mut p = parser(&[Kind::Catch, Kind::LParen, Kind::Ident, Kind::Ident, Kind::RParen, Kind::LCurly, Kind::RCurly]);
    assert!(p.skip_orphaned_catch_head());
    assert_eq!(p.cur_kind(), Kind::LCurly);
    assert_eq!(p.errors, vec![Diagnostic::new(DiagnosticKind::CatchWithoutTry, Span::new(0, 1))]);

    let mut p = parser(&[Kind::Finally, Kind::LCurly]);
    assert!(p.skip_orphaned_finally_head());
    assert_eq!(p.cur_kind(), Kind::LCurly);
    assert_eq!(p.errors, vec![Diagnostic::new(DiagnosticKind::FinallyWithoutTry, Span::new(0, 1))]);

    // catch ( x  -- no `)` before the end
    let mut p = parser(&[Kind::Catch, Kind::LParen, Kind::Ident]);
    assert!(p.skip_orphaned_catch_head());
    assert!(p.at(Kind::Eof));

    // without recovery the one diagnostic is fatal and the cursor stays
    let mut p = parser_nl(&[Kind::Catch, Kind::LCurly], &[], false);
    assert!(!p.skip_orphaned_catch_head());
    assert!(p.errors.is_empty());
    assert_eq!(p.fatal_error.unwrap().error, Diagnostic::new(DiagnosticKind::CatchWithoutTry, Span::new(0, 1)));
    assert!(p.at(Kind::Catch));
    let out = p.finish(vec![], 3, b"c {", None);
    assert!(out.panicked);
    assert_eq!(out.errors.len(), 1);
}

#[test]
fn use_strict_directive_enters_strict_mode() {
    let source = b"\"use strict\";";
    let stmts = [StatementHead { start: 0, string_literal: Some(Span::new(0, 12)) }];
    let mut p = parser(&[Kind::Str, Kind::Semicolon]);
    assert!(!p.ctx.has_strict_mode());
    assert_eq!(p.apply_directive_prologue(&stmts, source), (1, true));
    assert!(p.ctx.has_strict_mode());
    assert!(p.ctx.has_in());
    let mut q = parser(&[Kind::Str]);
    assert_eq!(q.apply_directive_prologue(&stmts, b"\"use   asm\";"), (1, false));
    assert!(!q.ctx.has_strict_mode());
}

#[test]
fn parameter_after_rest_is_reported() {
    let open = Span::new(0, 0);
    // (...a, b)
    let mut p = parser(&[Kind::Dot3, Kind::Comma, Kind::Ident, Kind::RParen]);
    p.context_stack.push(ParsingContext::Parameters);
    p.bump_any();
    let step = p.next_parameter_step(open, false, Some(Span::new(0, 1)), 1);
    assert_eq!(step, ListStep::Done { trailing: None });
    assert_eq!(p.errors, vec![Diagnostic::new(DiagnosticKind::RestParameterLast, Span::new(0, 1))]);
    assert_eq!(p.cur_kind(), Kind::Ident);
    // without recovery the diagnostic is fatal
    let mut q = parser_nl(&[Kind::Dot3, Kind::Comma, Kind::Ident, Kind::RParen], &[], false);
    q.bump_any();
    assert_eq!(q.next_parameter_step(open, false, Some(Span::new(0, 1)), 1), ListStep::Done { trailing: None });
    assert_eq!(q.fatal_error.unwrap().error, Diagnostic::new(DiagnosticKind::RestParameterLast, Span::new(0, 1)));
}

#[test]
fn computed_enum_names_get_placeholders() {
    let mut p = parser(&[Kind::LBrack]);
    let span = Span::new(1, 4);
    assert_eq!(p.recover_computed_enum_member_name(ComputedName::StringLiteral, span), None);
    assert!(p.errors.is_empty());
    let c = p.recover_computed_enum_member_name(ComputedName::Other, span).unwrap();
    assert_eq!(c, Placeholder { name: PlaceholderName::ComputedEnumMember, span });
    assert_eq!(c.text(b"[a+b]"), b"__computed__".to_vec());
    let n = p.recover_computed_enum_member_name(ComputedName::NumericLiteral, Span::new(1, 3)).unwrap();
    assert_eq!(n.text(b"[12]"), b"_12".to_vec());
    assert_eq!(
        p.errors,
        vec![
            Diagnostic::new(DiagnosticKind::ComputedEnumMemberName, span),
            Diagnostic::new(DiagnosticKind::EnumMemberNumericName, Span::new(1, 3)),
        ]
    );
    let mut q = parser_nl(&[Kind::LBrack], &[], false);
    assert_eq!(q.recover_computed_enum_member_name(ComputedName::Other, span), None);
    assert!(q.fatal_error.is_some());
}

#[test]
fn missing_function_body() {
    assert!(function_body_required(false, FunctionKind::Declaration));
    assert!(function_body_required(true, FunctionKind::ObjectMethod));
    assert!(!function_body_required(true, FunctionKind::Declaration));
    let mut p = parser(&[Kind::Function, Kind::Ident, Kind::Semicolon]);
    p.bump_any();
    p.bump_any();
    assert_eq!(p.recover_missing_function_body(0, true, true), None);
    assert_eq!(p.recover_missing_function_body(0, false, false), None);
    assert!(p.errors.is_empty());
    assert_eq!(p.recover_missing_function_body(0, true, false), Some(Span::new(0, 3)));
    assert_eq!(p.errors, vec![Diagnostic::new(DiagnosticKind::ExpectFunctionBody, Span::new(0, 3))]);
}

#[test]
fn expression_starts_exclude_reserved_words() {
    // a no-substitution template can begin an argument; `case` cannot
    let mut p = parser(&[Kind::NoSubstitutionTemplate, Kind::Case, Kind::TemplateTail]);
    assert!(p.is_context_element_start(ParsingContext::ArgumentExpressions, true));
    p.bump_any();
    assert!(!p.is_context_element_start(ParsingContext::ArgumentExpressions, true));
    p.bump_any();
    assert!(!p.is_context_element_start(ParsingContext::ArrayLiteralMembers, true));
}
