//! Tests of the lexer.

use mendes::lexer::Lexer;
use mendes::token::TokenKind;

fn lex(source: &str) -> Vec<TokenKind> {
    let mut lexer = Lexer::new(source, 0);
    lexer
        .tokenize()
        .into_iter()
        .map(|t| t.kind)
        .filter(|k| !matches!(k, TokenKind::Newline | TokenKind::Eof))
        .collect()
}

#[test]
fn test_basic_tokens() {
    let tokens = lex("let x: int = 10");
    assert_eq!(
        tokens,
        vec![
            TokenKind::Let,
            TokenKind::Ident("x".into()),
            TokenKind::Colon,
            TokenKind::IntType,
            TokenKind::Eq,
            TokenKind::IntLit(10),
        ]
    );
}

#[test]
fn test_keywords() {
    let tokens = lex("fn async await return");
    assert_eq!(
        tokens,
        vec![
            TokenKind::Fn,
            TokenKind::Async,
            TokenKind::Await,
            TokenKind::Return,
        ]
    );
}

#[test]
fn test_http_keywords() {
    let tokens = lex("api GET POST server middleware");
    assert_eq!(
        tokens,
        vec![
            TokenKind::Api,
            TokenKind::Get,
            TokenKind::Post,
            TokenKind::Server,
            TokenKind::Middleware,
        ]
    );
}

#[test]
fn test_numbers() {
    // A float literal carries its source text.
    let tokens = lex("42 3.14 0xFF 0b1010");
    assert_eq!(
        tokens,
        vec![
            TokenKind::IntLit(42),
            TokenKind::FloatLit("3.14".into()),
            TokenKind::IntLit(255),
            TokenKind::IntLit(10),
        ]
    );
}

#[test]
fn test_strings() {
    let tokens = lex(r#""hello" "world\n""#);
    assert_eq!(
        tokens,
        vec![
            TokenKind::StringLit("hello".into()),
            TokenKind::StringLit("world\n".into()),
        ]
    );
}

#[test]
fn test_operators() {
    let tokens = lex("+ - * / == != <= >= -> &mut");
    assert_eq!(
        tokens,
        vec![
            TokenKind::Plus,
            TokenKind::Minus,
            TokenKind::Star,
            TokenKind::Slash,
            TokenKind::EqEq,
            TokenKind::Ne,
            TokenKind::Le,
            TokenKind::Ge,
            TokenKind::Arrow,
            TokenKind::AmpersandMut,
        ]
    );
}

#[test]
fn test_indentation() {
    let source = "if x:\n    y\n    z\nw";
    let mut lexer = Lexer::new(source, 0);
    let tokens: Vec<_> = lexer.tokenize().into_iter().map(|t| t.kind).collect();

    assert!(tokens.contains(&TokenKind::Indent));
    assert!(tokens.contains(&TokenKind::Dedent));
}

#[test]
fn test_borrow() {
    let tokens = lex("&user &mut user");
    assert_eq!(
        tokens,
        vec![
            TokenKind::Ampersand,
            TokenKind::Ident("user".into()),
            TokenKind::AmpersandMut,
            TokenKind::Ident("user".into()),
        ]
    );
}
