//! Tests of the parser.

use mendes::ast::{format_stmt, format_type, ImportItems, Program, Stmt, Type};
use mendes::lexer::Lexer;
use mendes::parser::parse;
use mendes::Diagnostics;

fn parse_source(source: &str) -> (Program, Diagnostics) {
    let mut lexer = Lexer::new(source, 0);
    let tokens = lexer.tokenize();
    parse(tokens)
}

#[test]
fn test_parse_let() {
    let (program, diags) = parse_source("let x: int = 10\n");
    assert!(!diags.has_errors());
    assert_eq!(program.statements.len(), 1);
    assert!(matches!(program.statements[0], Stmt::Let { .. }));
}

#[test]
fn test_parse_fn() {
    let (program, diags) = parse_source("fn add(a: int, b: int) -> int:\n    return a + b\n");
    assert!(!diags.has_errors());
    assert_eq!(program.statements.len(), 1);
    assert!(matches!(program.statements[0], Stmt::Fn(_)));
}

#[test]
fn test_parse_struct() {
    let (program, diags) = parse_source("struct User:\n    id: int\n    name: string\n");
    assert!(!diags.has_errors());
    assert_eq!(program.statements.len(), 1);
    assert!(matches!(program.statements[0], Stmt::Struct(_)));
}

#[test]
fn test_parse_api() {
    let (program, diags) =
        parse_source("api GET /health:\n    return string\n\n    return \"ok\"\n");
    assert!(!diags.has_errors());
    assert_eq!(program.statements.len(), 1);
    assert!(matches!(program.statements[0], Stmt::Api(_)));
}

#[test]
fn test_parse_server() {
    let (program, diags) = parse_source("server:\n    host \"0.0.0.0\"\n    port 8080\n");
    assert!(!diags.has_errors());
    assert_eq!(program.statements.len(), 1);
    assert!(matches!(program.statements[0], Stmt::Server(_)));
}

#[test]
fn test_parse_from_import() {
    let (program, diags) = parse_source("from math import add, multiply\n");
    assert!(!diags.has_errors());
    assert_eq!(program.statements.len(), 1);
    match &program.statements[0] {
        Stmt::FromImport { module, items, .. } => {
            assert_eq!(module, "math");
            match items {
                ImportItems::Names(names) => {
                    assert_eq!(names.len(), 2);
                    assert_eq!(names[0].name, "add");
                    assert_eq!(names[1].name, "multiply");
                }
                _ => panic!("Expected Names, got All"),
            }
        }
        _ => panic!("Expected FromImport"),
    }
}

#[test]
fn test_parse_from_import_all() {
    let (program, diags) = parse_source("from utils import *\n");
    assert!(!diags.has_errors());
    assert_eq!(program.statements.len(), 1);
    match &program.statements[0] {
        Stmt::FromImport { module, items, .. } => {
            assert_eq!(module, "utils");
            assert!(matches!(items, ImportItems::All));
        }
        _ => panic!("Expected FromImport"),
    }
}

#[test]
fn test_parse_from_import_with_alias() {
    let (program, diags) = parse_source("from math import add as sum, multiply as mul\n");
    assert!(!diags.has_errors());
    assert_eq!(program.statements.len(), 1);
    match &program.statements[0] {
        Stmt::FromImport { module, items, .. } => {
            assert_eq!(module, "math");
            match items {
                ImportItems::Names(names) => {
                    assert_eq!(names.len(), 2);
                    assert_eq!(names[0].name, "add");
                    assert_eq!(names[0].alias, Some("sum".to_string()));
                    assert_eq!(names[1].name, "multiply");
                    assert_eq!(names[1].alias, Some("mul".to_string()));
                }
                _ => panic!("Expected Names, got All"),
            }
        }
        _ => panic!("Expected FromImport"),
    }
}

#[test]
fn test_parse_module_path() {
    let (program, diags) = parse_source("from std.collections import HashMap\n");
    assert!(!diags.has_errors());
    assert_eq!(program.statements.len(), 1);
    match &program.statements[0] {
        Stmt::FromImport { module, items, .. } => {
            assert_eq!(module, "std.collections");
            match items {
                ImportItems::Names(names) => {
                    assert_eq!(names.len(), 1);
                    assert_eq!(names[0].name, "HashMap");
                }
                _ => panic!("Expected Names"),
            }
        }
        _ => panic!("Expected FromImport"),
    }
}

#[test]
fn format_type_renders_source_style() {
    assert_eq!(format_type(&Type::Int), "int");
    assert_eq!(
        format_type(&Type::Generic {
            name: "Result".to_string(),
            args: vec![Type::Int, Type::String],
        }),
        "Result<int, string>"
    );
    assert_eq!(
        format_type(&Type::Function {
            params: vec![Type::Int],
            return_type: Box::new(Type::Bool),
        }),
        "fn(int) -> bool"
    );
    assert_eq!(format_type(&Type::Ref(Box::new(Type::String))), "&string");
}

#[test]
fn format_stmt_summarizes_declarations() {
    let (program, diags) = parse_source("let mut x: int = 10\n");
    assert!(!diags.has_errors());
    let text = format_stmt(&program.statements[0], 0);
    assert_eq!(text, "Let mut x: int");

    let (program2, diags2) = parse_source("struct User:\n    id: int\n");
    assert!(!diags2.has_errors());
    let text2 = format_stmt(&program2.statements[0], 1);
    assert_eq!(text2, "  Struct User { id: int }");
}
