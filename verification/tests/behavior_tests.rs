//! Behavioral tests: string-table uniqueness, loop lowering shapes,
//! block termination, diagnostic codes, and rendering details.

use mendes::compile;
use mendes::ir::lower::lower_program;
use mendes::ir::instruction::Value;
use mendes::lexer::Lexer;
use mendes::parser::parse;
use mendes::semantic::{analyze, SemanticContext};
use mendes::types::MendesType;
use mendes::{Diagnostics, ErrorCode};

fn lower_source(source: &str) -> mendes::ir::module::Module {
    let mut lexer = Lexer::new(source, 0);
    let tokens = lexer.tokenize();
    let (program, _) = parse(tokens);
    lower_program(&program)
}

fn analyze_source(source: &str) -> Diagnostics {
    let mut lexer = Lexer::new(source, 0);
    let tokens = lexer.tokenize();
    let (program, _) = parse(tokens);
    let mut ctx = SemanticContext::new();
    analyze(&program, &mut ctx)
}

fn count_code(diags: &Diagnostics, code: ErrorCode) -> usize {
    diags
        .iter()
        .iter()
        .filter(|d| d.code == Some(code))
        .count()
}

#[test]
fn string_table_dedupes_values() {
    let module = lower_source(
        "fn test() -> int:\n    let x = \"a\"\n    let y = \"a\"\n    let z = \"b\"\n    return 0\n",
    );
    assert_eq!(module.string_table.len(), 2);
    assert_eq!(module.string_table[0], "a");
    assert_eq!(module.string_table[1], "b");
}

#[test]
fn string_table_reuses_index() {
    let mut module = mendes::ir::module::Module::new("test");
    let a = module.add_string("a".to_string());
    let a2 = module.add_string("a".to_string());
    let b = module.add_string("b".to_string());
    assert_eq!(a, 0);
    assert_eq!(a2, 0);
    assert_eq!(b, 1);
    assert_eq!(module.string_table.len(), 2);
}

#[test]
fn every_lowered_function_ends_terminated() {
    let module = lower_source(
        "fn a() -> int:\n    return 1\n\nfn b():\n    let x = 2\n\nfn c(n: int) -> int:\n    if n > 0:\n        return n\n    return 0\n",
    );
    assert!(module.functions.len() == 3);
    for func in &module.functions {
        assert!(func.blocks.len() >= 1);
        let last = &func.blocks[func.blocks.len() - 1];
        assert!(last.is_terminated());
    }
}

#[test]
fn every_block_of_lowered_control_flow_is_terminated() {
    let module = lower_source(
        "fn c(n: int) -> int:\n    let mut total: int = 0\n    for i in 0..n:\n        total = total + i\n    while total > 100:\n        total = total - 1\n    if total > 0:\n        return total\n    else:\n        return 0\n",
    );
    assert_eq!(module.functions.len(), 1);
    for func in &module.functions {
        assert!(func.blocks.len() > 1);
        for block in &func.blocks {
            assert!(block.is_terminated(), "block {} is not terminated", block.label);
        }
    }
}

#[test]
fn exclusive_range_compares_with_lt() {
    let module = lower_source(
        "fn f() -> int:\n    for i in 0..5:\n        let x = i\n    return 0\n",
    );
    let text = module.to_text();
    assert!(text.contains("cmp lt %t1, 5"), "IR was:\n{}", text);
}

#[test]
fn inclusive_range_compares_with_le() {
    let module = lower_source(
        "fn f() -> int:\n    for i in 0..=5:\n        let x = i\n    return 0\n",
    );
    let text = module.to_text();
    assert!(text.contains("cmp le %t1, 5"), "IR was:\n{}", text);
}

#[test]
fn add_function_lowers_to_binary_and_return() {
    let source = "fn add(a: int, b: int) -> int:\n    return a + b\n";
    let diags = analyze_source(source);
    assert_eq!(diags.len(), 0);

    let module = lower_source(source);
    assert_eq!(module.functions.len(), 1);
    let func = &module.functions[0];
    assert_eq!(func.name, "add");
    assert_eq!(func.params.len(), 2);
    assert_eq!(func.params[0].0, "a");
    assert_eq!(func.params[1].0, "b");

    let text = module.to_text();
    assert!(text.contains("define i64@add(i64 %a, i64 %b)"), "IR was:\n{}", text);
    assert!(text.contains("%t0 = add %a, %b"), "IR was:\n{}", text);
    assert!(text.contains("ret %t0"), "IR was:\n{}", text);
}

#[test]
fn let_mismatch_gives_exactly_one_type_error() {
    let diags = analyze_source("let x: int = \"hello\"\n");
    assert_eq!(count_code(&diags, ErrorCode::type_mismatch()), 1);
    assert_eq!(count_code(&diags, ErrorCode::use_after_move()), 0);
    assert_eq!(count_code(&diags, ErrorCode::mut_borrow_conflict()), 0);
    assert_eq!(count_code(&diags, ErrorCode::borrow_across_await()), 0);
    assert_eq!(diags.len(), 1);
}

#[test]
fn mutable_borrow_of_immutable_conflicts_once() {
    let diags = analyze_source("let x: int = 1\nlet y = &mut x\nlet z = &x\n");
    assert_eq!(count_code(&diags, ErrorCode::mut_borrow_conflict()), 1);
}

#[test]
fn double_mutable_borrow_conflicts() {
    let diags = analyze_source("let mut x: string = \"s\"\nlet y = &mut x\nlet z = &mut x\n");
    assert_eq!(count_code(&diags, ErrorCode::mut_borrow_conflict()), 1);
}

#[test]
fn borrow_crossing_await_names_the_variable() {
    let source = "fn work(value: string) async:\n    let r = &value\n    await compute()\n";
    let diags = analyze_source(source);
    assert_eq!(count_code(&diags, ErrorCode::borrow_across_await()), 1);
    let items = diags.iter();
    let d = items
        .iter()
        .find(|d| d.code == Some(ErrorCode::borrow_across_await()))
        .unwrap();
    assert!(d.message.contains("value"), "message: {}", d.message);
}

#[test]
fn use_after_move_reports_both_sites() {
    let source = "fn take(s: string):\n    return\n\nfn test(a: string):\n    take(a)\n    take(a)\n";
    let diags = analyze_source(source);
    assert_eq!(count_code(&diags, ErrorCode::use_after_move()), 1);
    let items = diags.iter();
    let d = items
        .iter()
        .find(|d| d.code == Some(ErrorCode::use_after_move()))
        .unwrap();
    assert_eq!(d.labels.len(), 2);
    assert!(d.labels[0].primary);
    assert!(!d.labels[1].primary);
}

#[test]
fn unexpected_character_is_reported() {
    let mut lexer = Lexer::new("let @", 0);
    let _ = lexer.tokenize();
    let diags = lexer.take_diagnostics();
    assert!(diags
        .iter()
        .iter()
        .any(|d| d.code == Some(ErrorCode::unexpected_char())));
}

#[test]
fn unterminated_string_is_reported() {
    let mut lexer = Lexer::new("\"abc", 0);
    let _ = lexer.tokenize();
    let diags = lexer.take_diagnostics();
    assert!(diags
        .iter()
        .iter()
        .any(|d| d.code == Some(ErrorCode::unterminated_string())));
}

#[test]
fn integer_overflow_is_reported() {
    let mut lexer = Lexer::new("123456789012345678901234567890", 0);
    let tokens = lexer.tokenize();
    let diags = lexer.take_diagnostics();
    assert!(diags
        .iter()
        .iter()
        .any(|d| d.code == Some(ErrorCode::invalid_number())));
    assert!(tokens
        .iter()
        .any(|t| matches!(t.kind, mendes::token::TokenKind::IntLit(0))));
}

#[test]
fn inconsistent_indentation_is_reported() {
    let mut lexer = Lexer::new("if x:\n        y\n    z\n", 0);
    let _ = lexer.tokenize();
    let diags = lexer.take_diagnostics();
    assert!(diags
        .iter()
        .iter()
        .any(|d| d.code == Some(ErrorCode::invalid_indent())));
}

#[test]
fn unexpected_token_is_reported() {
    let mut lexer = Lexer::new("let = 5\n", 0);
    let tokens = lexer.tokenize();
    let (_, diags) = parse(tokens);
    assert!(diags
        .iter()
        .iter()
        .any(|d| d.code == Some(ErrorCode::unexpected_token())));
}

#[test]
fn unknown_field_type_is_reported() {
    let diags = analyze_source("struct S:\n    x: Widget\n");
    assert!(diags
        .iter()
        .iter()
        .any(|d| d.code == Some(ErrorCode::unknown_type())));
}

#[test]
fn error_codes_render_with_category_and_number() {
    assert_eq!(ErrorCode::type_mismatch().to_text(), "ET001");
    assert_eq!(ErrorCode::mut_borrow_conflict().to_text(), "EO003");
    assert_eq!(ErrorCode::borrow_across_await().to_text(), "EO004");
    assert_eq!(ErrorCode::unexpected_token().to_text(), "EP001");
    assert_eq!(ErrorCode::new('L', 42).to_text(), "EL042");
}

#[test]
fn values_render_in_decimal() {
    assert_eq!(Value::ConstInt(-42).to_text(), "-42");
    assert_eq!(Value::ConstInt(0).to_text(), "0");
    assert_eq!(Value::ConstInt(9007199254740993).to_text(), "9007199254740993");
    assert_eq!(Value::Temp(7).to_text(), "%t7");
    assert_eq!(Value::Global("main".to_string()).to_text(), "@main");
}

#[test]
fn closure_encoding_matches_function_type_both_ways() {
    let closure = MendesType::Generic {
        name: "Fn".to_string(),
        args: vec![MendesType::Int, MendesType::Int, MendesType::Bool],
    };
    let function = MendesType::Function {
        params: vec![MendesType::Int, MendesType::Int],
        ret: Box::new(MendesType::Bool),
    };
    assert!(closure.is_compatible_with(&function));
    assert!(function.is_compatible_with(&closure));

    let wrong = MendesType::Function {
        params: vec![MendesType::Int],
        ret: Box::new(MendesType::Bool),
    };
    assert!(!closure.is_compatible_with(&wrong));
}

#[test]
fn unknown_and_any_are_universally_compatible() {
    let samples = vec![
        MendesType::Int,
        MendesType::String,
        MendesType::Named("User".to_string()),
        MendesType::Array(Box::new(MendesType::Bool)),
        MendesType::Tuple(vec![MendesType::Int, MendesType::Float]),
    ];
    for t in &samples {
        assert!(MendesType::Unknown.is_compatible_with(t));
        assert!(t.is_compatible_with(&MendesType::Unknown));
        assert!(MendesType::Any.is_compatible_with(t));
        assert!(t.is_compatible_with(&MendesType::Any));
    }
}

#[test]
fn compatibility_is_reflexive_on_samples() {
    let samples = vec![
        MendesType::Int,
        MendesType::Named("User".to_string()),
        MendesType::Future(Box::new(MendesType::Int)),
        MendesType::Function {
            params: vec![MendesType::Int],
            ret: Box::new(MendesType::Bool),
        },
        MendesType::Tuple(vec![MendesType::Int, MendesType::String]),
    ];
    for t in &samples {
        assert!(t.is_compatible_with(t));
    }
    let a = MendesType::Future(Box::new(MendesType::Int));
    let b = MendesType::Future(Box::new(MendesType::String));
    assert!(!a.is_compatible_with(&b));
}

#[test]
fn failed_compile_keeps_its_diagnostics() {
    let result = compile("fn test() -> int:\n    return \"oops\"\n");
    assert!(!result.success);
    assert!(result.diagnostics.has_errors());
    assert!(result.rust_code.is_none());
    assert!(result.ir_debug.is_none());
}

#[test]
fn escaped_strings_render_escaped_in_ir() {
    let module = lower_source("fn f() -> string:\n    return \"a\\nb\"\n");
    let text = module.to_text();
    assert!(text.contains("@str0 = \"a\\nb\""), "IR was:\n{}", text);
}

#[test]
fn renderer_prints_notes_and_suggestions() {
    let cache = mendes::SourceCache::new();
    let d = mendes::Diagnostic::warning("shadowed name")
        .with_note("the earlier binding is unused")
        .with_help("rename one of the bindings");
    let renderer = mendes::DiagnosticRenderer::new(&cache).without_colors();
    let out = renderer.render(&d);
    assert!(out.contains("warning"));
    assert!(out.contains("note: the earlier binding is unused"));
    assert!(out.contains("help: rename one of the bindings"));
}
