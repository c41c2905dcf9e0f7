//! Tests of the semantic analysis: the type model, the symbol table, the
//! ownership tracker, and the checker.

use mendes::ownership::OwnershipChecker;
use mendes::semantic::{analyze, SemanticContext};
use mendes::span::{Position, Span};
use mendes::symbols::{Symbol, SymbolKind, SymbolTable};
use mendes::types::MendesType;
use mendes::Diagnostics;

fn make_span(line: u32) -> Span {
    Span::new(Position::new(line, 1, 0), Position::new(line, 10, 10), 0)
}

fn analyze_source(source: &str) -> Diagnostics {
    let mut lexer = mendes::lexer::Lexer::new(source, 0);
    let tokens = lexer.tokenize();
    let (program, _) = mendes::parser::parse(tokens);
    let mut ctx = SemanticContext::new();
    analyze(&program, &mut ctx)
}

#[test]
fn test_type_compatibility() {
    assert!(MendesType::Int.is_compatible_with(&MendesType::Int));
    assert!(!MendesType::Int.is_compatible_with(&MendesType::String));
    assert!(MendesType::Unknown.is_compatible_with(&MendesType::Int));
}

#[test]
fn test_type_display() {
    assert_eq!(MendesType::Int.to_text(), "int");
    assert_eq!(
        MendesType::Generic {
            name: "Result".to_string(),
            args: vec![MendesType::Int, MendesType::String],
        }
        .to_text(),
        "Result<int, string>"
    );
}

#[test]
fn test_is_copy() {
    assert!(MendesType::Int.is_copy());
    assert!(MendesType::Bool.is_copy());
    assert!(!MendesType::String.is_copy());
    assert!(!MendesType::Named("User".to_string()).is_copy());
}

#[test]
fn test_symbol_table_scopes() {
    let mut table = SymbolTable::new();

    table.define(Symbol {
        name: "x".to_string(),
        kind: SymbolKind::Variable,
        ty: MendesType::Int,
        mutable: false,
        defined_at: None,
    });

    assert!(table.lookup("x").is_some());

    table.push_scope();

    assert!(table.lookup("x").is_some());

    table.define(Symbol {
        name: "y".to_string(),
        kind: SymbolKind::Variable,
        ty: MendesType::Int,
        mutable: false,
        defined_at: None,
    });

    assert!(table.lookup("y").is_some());

    table.pop_scope();

    assert!(table.lookup("y").is_none());
    assert!(table.lookup("x").is_some());
}

#[test]
fn test_shadowing() {
    let mut table = SymbolTable::new();

    table.define(Symbol {
        name: "x".to_string(),
        kind: SymbolKind::Variable,
        ty: MendesType::Int,
        mutable: false,
        defined_at: None,
    });

    table.push_scope();

    table.define(Symbol {
        name: "x".to_string(),
        kind: SymbolKind::Variable,
        ty: MendesType::String,
        mutable: false,
        defined_at: None,
    });

    assert_eq!(table.lookup("x").unwrap().ty, MendesType::String);

    table.pop_scope();

    assert_eq!(table.lookup("x").unwrap().ty, MendesType::Int);
}

#[test]
fn test_use_after_move() {
    let mut checker = OwnershipChecker::new();

    checker.define("x".to_string(), MendesType::String, false, make_span(1));
    checker.mark_moved("x", make_span(2));

    let result = checker.check_use("x", make_span(3));
    assert!(result.is_err());
}

#[test]
fn test_copy_types_not_moved() {
    let mut checker = OwnershipChecker::new();

    checker.define("x".to_string(), MendesType::Int, false, make_span(1));
    checker.mark_moved("x", make_span(2));

    let result = checker.check_use("x", make_span(3));
    assert!(result.is_ok());
}

#[test]
fn test_borrow_conflict() {
    let mut checker = OwnershipChecker::new();

    checker.define("x".to_string(), MendesType::String, true, make_span(1));

    assert!(checker.borrow_mut("x", make_span(2)).is_ok());

    assert!(checker.borrow("x", make_span(3)).is_err());
}

#[test]
fn test_multiple_immutable_borrows() {
    let mut checker = OwnershipChecker::new();

    checker.define("x".to_string(), MendesType::String, false, make_span(1));

    assert!(checker.borrow("x", make_span(2)).is_ok());
    assert!(checker.borrow("x", make_span(3)).is_ok());
    assert!(checker.borrow("x", make_span(4)).is_ok());
}

#[test]
fn test_type_mismatch() {
    let diags = analyze_source("let x: int = \"hello\"\n");
    assert!(diags.has_errors());
}

#[test]
fn test_valid_let() {
    let diags = analyze_source("let x: int = 10\n");
    assert!(!diags.has_errors());
}

#[test]
fn test_unknown_variable() {
    let diags = analyze_source("let x: int = y\n");
    assert!(diags.has_errors());
}

#[test]
fn test_closure_basic() {
    let diags = analyze_source("let add = |x: int, y: int| x + y\n");
    assert!(!diags.has_errors());
}

#[test]
fn test_closure_with_return_type() {
    let diags = analyze_source("let double = |n: int| -> int: n * 2\n");
    assert!(!diags.has_errors());
}

#[test]
fn test_higher_order_function() {
    let source = r#"
fn apply(f: fn(int) -> int, x: int) -> int:
    return f(x)
"#;
    let diags = analyze_source(source);
    assert!(!diags.has_errors());
}

#[test]
fn test_closure_type_compatibility() {
    let source = r#"
fn apply(f: fn(int) -> int, x: int) -> int:
    return f(x)

fn test() -> int:
    let square = |n: int| n * n
    return apply(square, 5)
"#;
    let diags = analyze_source(source);
    assert!(!diags.has_errors());
}
