//! Tokens of the Mendes language: keywords, literals, operators,
//! punctuation, and the indentation tokens of the layout-sensitive grammar.

use vstd::prelude::*;

use crate::span::Span;
use crate::text::{i64_to_dec, push_char, push_str, str_eq as str_is};

verus! {

/// All token kinds of the Mendes language.
#[derive(Debug, Clone, PartialEq)]
pub enum TokenKind {
    /// `let`.
    Let,
    /// `mut`.
    Mut,
    /// `fn`.
    Fn,
    /// `return`.
    Return,
    /// `if`.
    If,
    /// `else`.
    Else,
    /// `for`.
    For,
    /// `in`.
    In,
    /// `while`.
    While,
    /// `break`.
    Break,
    /// `continue`.
    Continue,
    /// `match`.
    Match,
    /// `struct`.
    Struct,
    /// `enum`.
    Enum,
    /// `impl`.
    Impl,
    /// `trait`.
    Trait,
    /// `type`.
    Type,
    /// `api`.
    Api,
    /// `ws`.
    Ws,
    /// `server`.
    Server,
    /// `middleware`.
    Middleware,
    /// `use`.
    Use,
    /// `body`.
    Body,
    /// `query`.
    Query,
    /// `header`.
    Header,
    /// `GET`.
    Get,
    /// `POST`.
    Post,
    /// `PUT`.
    Put,
    /// `DELETE`.
    Delete,
    /// `PATCH`.
    Patch,
    /// `async`.
    Async,
    /// `await`.
    Await,
    /// `db`.
    Db,
    /// `transaction`.
    Transaction,
    /// `module`.
    Module,
    /// `import`.
    Import,
    /// `from`.
    From,
    /// `as`.
    As,
    /// `pub`.
    Pub,
    /// `None`.
    NoneKw,
    /// `Some`.
    SomeKw,
    /// `Ok`.
    OkKw,
    /// `Err`.
    ErrKw,
    /// `true`.
    True,
    /// `false`.
    False,
    /// `is`.
    Is,
    /// `copy`.
    Copy,
    /// `int`.
    IntType,
    /// `float`.
    FloatType,
    /// `bool`.
    BoolType,
    /// `string`.
    StringType,
    /// `Result`.
    ResultType,
    /// `Option`.
    OptionType,
    /// Integer literal: `42`, `0xFF`, `0b1010`.
    IntLit(i64),
    /// Float literal, kept as its source text: `3.14`, `2.5e10`.
    FloatLit(String),
    /// String literal.
    StringLit(String),
    /// Interpolated string: pairs of literal part and expression text.
    InterpolatedString(Vec<(String, String)>),
    /// Identifier.
    Ident(String),
    /// `+`.
    Plus,
    /// `-`.
    Minus,
    /// `*`.
    Star,
    /// `/`.
    Slash,
    /// `%`.
    Percent,
    /// `==`.
    EqEq,
    /// `!=`.
    Ne,
    /// `<`.
    Lt,
    /// `<=`.
    Le,
    /// `>`.
    Gt,
    /// `>=`.
    Ge,
    /// `and`.
    And,
    /// `or`.
    Or,
    /// `not`.
    Not,
    /// `=`.
    Eq,
    /// `+=`.
    PlusEq,
    /// `-=`.
    MinusEq,
    /// `*=`.
    StarEq,
    /// `/=`.
    SlashEq,
    /// `&`.
    Ampersand,
    /// `&mut`, treated as a single token.
    AmpersandMut,
    /// `->`.
    Arrow,
    /// `:`.
    Colon,
    /// `::`.
    ColonColon,
    /// `,`.
    Comma,
    /// `.`.
    Dot,
    /// `..`.
    DotDot,
    /// `..=`.
    DotDotEq,
    /// `(`.
    LParen,
    /// `)`.
    RParen,
    /// `{`.
    LBrace,
    /// `}`.
    RBrace,
    /// `[`.
    LBracket,
    /// `]`.
    RBracket,
    /// `<` in type position.
    LAngle,
    /// `>` in type position.
    RAngle,
    /// `|`.
    Pipe,
    /// `$`.
    Dollar,
    /// `?`.
    Question,
    /// Newline (significant).
    Newline,
    /// Indentation increase.
    Indent,
    /// Indentation decrease.
    Dedent,
    /// End of file.
    Eof,
    /// Invalid character or lexing error.
    Error(String),
}

impl TokenKind {
    /// A number identifying the variant, for kind comparisons that ignore
    /// payloads.
    pub fn variant_id(&self) -> (r: u32) {
        match self {
            TokenKind::Let => 1,
            TokenKind::Mut => 2,
            TokenKind::Fn => 3,
            TokenKind::Return => 4,
            TokenKind::If => 5,
            TokenKind::Else => 6,
            TokenKind::For => 7,
            TokenKind::In => 8,
            TokenKind::While => 9,
            TokenKind::Break => 10,
            TokenKind::Continue => 11,
            TokenKind::Match => 12,
            TokenKind::Struct => 13,
            TokenKind::Enum => 14,
            TokenKind::Impl => 15,
            TokenKind::Trait => 16,
            TokenKind::Type => 17,
            TokenKind::Api => 18,
            TokenKind::Ws => 19,
            TokenKind::Server => 20,
            TokenKind::Middleware => 21,
            TokenKind::Use => 22,
            TokenKind::Body => 23,
            TokenKind::Query => 24,
            TokenKind::Header => 25,
            TokenKind::Get => 26,
            TokenKind::Post => 27,
            TokenKind::Put => 28,
            TokenKind::Delete => 29,
            TokenKind::Patch => 30,
            TokenKind::Async => 31,
            TokenKind::Await => 32,
            TokenKind::Db => 33,
            TokenKind::Transaction => 34,
            TokenKind::Module => 35,
            TokenKind::Import => 36,
            TokenKind::From => 37,
            TokenKind::As => 38,
            TokenKind::Pub => 39,
            TokenKind::NoneKw => 40,
            TokenKind::SomeKw => 41,
            TokenKind::OkKw => 42,
            TokenKind::ErrKw => 43,
            TokenKind::True => 44,
            TokenKind::False => 45,
            TokenKind::Is => 46,
            TokenKind::Copy => 47,
            TokenKind::IntType => 48,
            TokenKind::FloatType => 49,
            TokenKind::BoolType => 50,
            TokenKind::StringType => 51,
            TokenKind::ResultType => 52,
            TokenKind::OptionType => 53,
            TokenKind::IntLit(_) => 54,
            TokenKind::FloatLit(_) => 55,
            TokenKind::StringLit(_) => 56,
            TokenKind::InterpolatedString(_) => 57,
            TokenKind::Ident(_) => 58,
            TokenKind::Plus => 59,
            TokenKind::Minus => 60,
            TokenKind::Star => 61,
            TokenKind::Slash => 62,
            TokenKind::Percent => 63,
            TokenKind::EqEq => 64,
            TokenKind::Ne => 65,
            TokenKind::Lt => 66,
            TokenKind::Le => 67,
            TokenKind::Gt => 68,
            TokenKind::Ge => 69,
            TokenKind::And => 70,
            TokenKind::Or => 71,
            TokenKind::Not => 72,
            TokenKind::Eq => 73,
            TokenKind::PlusEq => 74,
            TokenKind::MinusEq => 75,
            TokenKind::StarEq => 76,
            TokenKind::SlashEq => 77,
            TokenKind::Ampersand => 78,
            TokenKind::AmpersandMut => 79,
            TokenKind::Arrow => 80,
            TokenKind::Colon => 81,
            TokenKind::ColonColon => 82,
            TokenKind::Comma => 83,
            TokenKind::Dot => 84,
            TokenKind::DotDot => 85,
            TokenKind::DotDotEq => 86,
            TokenKind::LParen => 87,
            TokenKind::RParen => 88,
            TokenKind::LBrace => 89,
            TokenKind::RBrace => 90,
            TokenKind::LBracket => 91,
            TokenKind::RBracket => 92,
            TokenKind::LAngle => 93,
            TokenKind::RAngle => 94,
            TokenKind::Pipe => 95,
            TokenKind::Dollar => 96,
            TokenKind::Question => 97,
            TokenKind::Newline => 98,
            TokenKind::Indent => 99,
            TokenKind::Dedent => 100,
            TokenKind::Eof => 101,
            TokenKind::Error(_) => 102,
        }
    }

    /// Whether two token kinds are the same variant, ignoring payloads.
    pub fn same_kind(&self, other: &TokenKind) -> (r: bool) {
        self.variant_id() == other.variant_id()
    }

    /// Whether the token is a keyword.
    pub fn is_keyword(&self) -> (r: bool) {
        let id = self.variant_id();
        (1 <= id && id <= 47) || id == 70 || id == 71 || id == 72
    }

    /// Whether the token is a literal.
    pub fn is_literal(&self) -> (r: bool) {
        matches!(
            self,
            TokenKind::IntLit(_) | TokenKind::FloatLit(_) | TokenKind::StringLit(_)
                | TokenKind::InterpolatedString(_)
        )
    }

    /// Converts a word to its keyword token, if it is one.
    pub fn keyword_from_str(s: &str) -> (r: Option<TokenKind>) {
        if str_is(s, "let") { Option::Some(TokenKind::Let) }
        else if str_is(s, "mut") { Option::Some(TokenKind::Mut) }
        else if str_is(s, "fn") { Option::Some(TokenKind::Fn) }
        else if str_is(s, "return") { Option::Some(TokenKind::Return) }
        else if str_is(s, "if") { Option::Some(TokenKind::If) }
        else if str_is(s, "else") { Option::Some(TokenKind::Else) }
        else if str_is(s, "for") { Option::Some(TokenKind::For) }
        else if str_is(s, "in") { Option::Some(TokenKind::In) }
        else if str_is(s, "while") { Option::Some(TokenKind::While) }
        else if str_is(s, "break") { Option::Some(TokenKind::Break) }
        else if str_is(s, "continue") { Option::Some(TokenKind::Continue) }
        else if str_is(s, "match") { Option::Some(TokenKind::Match) }
        else if str_is(s, "struct") { Option::Some(TokenKind::Struct) }
        else if str_is(s, "enum") { Option::Some(TokenKind::Enum) }
        else if str_is(s, "impl") { Option::Some(TokenKind::Impl) }
        else if str_is(s, "trait") { Option::Some(TokenKind::Trait) }
        else if str_is(s, "type") { Option::Some(TokenKind::Type) }
        else if str_is(s, "api") { Option::Some(TokenKind::Api) }
        else if str_is(s, "ws") { Option::Some(TokenKind::Ws) }
        else if str_is(s, "server") { Option::Some(TokenKind::Server) }
        else if str_is(s, "middleware") { Option::Some(TokenKind::Middleware) }
        else if str_is(s, "use") { Option::Some(TokenKind::Use) }
        else if str_is(s, "body") { Option::Some(TokenKind::Body) }
        else if str_is(s, "query") { Option::Some(TokenKind::Query) }
        else if str_is(s, "header") { Option::Some(TokenKind::Header) }
        else if str_is(s, "GET") { Option::Some(TokenKind::Get) }
        else if str_is(s, "POST") { Option::Some(TokenKind::Post) }
        else if str_is(s, "PUT") { Option::Some(TokenKind::Put) }
        else if str_is(s, "DELETE") { Option::Some(TokenKind::Delete) }
        else if str_is(s, "PATCH") { Option::Some(TokenKind::Patch) }
        else if str_is(s, "async") { Option::Some(TokenKind::Async) }
        else if str_is(s, "await") { Option::Some(TokenKind::Await) }
        else if str_is(s, "db") { Option::Some(TokenKind::Db) }
        else if str_is(s, "transaction") { Option::Some(TokenKind::Transaction) }
        else if str_is(s, "module") { Option::Some(TokenKind::Module) }
        else if str_is(s, "import") { Option::Some(TokenKind::Import) }
        else if str_is(s, "from") { Option::Some(TokenKind::From) }
        else if str_is(s, "pub") { Option::Some(TokenKind::Pub) }
        else if str_is(s, "None") { Option::Some(TokenKind::NoneKw) }
        else if str_is(s, "Some") { Option::Some(TokenKind::SomeKw) }
        else if str_is(s, "Ok") { Option::Some(TokenKind::OkKw) }
        else if str_is(s, "Err") { Option::Some(TokenKind::ErrKw) }
        else if str_is(s, "true") { Option::Some(TokenKind::True) }
        else if str_is(s, "false") { Option::Some(TokenKind::False) }
        else if str_is(s, "is") { Option::Some(TokenKind::Is) }
        else if str_is(s, "as") { Option::Some(TokenKind::As) }
        else if str_is(s, "copy") { Option::Some(TokenKind::Copy) }
        else if str_is(s, "int") { Option::Some(TokenKind::IntType) }
        else if str_is(s, "float") { Option::Some(TokenKind::FloatType) }
        else if str_is(s, "bool") { Option::Some(TokenKind::BoolType) }
        else if str_is(s, "string") { Option::Some(TokenKind::StringType) }
        else if str_is(s, "Result") { Option::Some(TokenKind::ResultType) }
        else if str_is(s, "Option") { Option::Some(TokenKind::OptionType) }
        else if str_is(s, "and") { Option::Some(TokenKind::And) }
        else if str_is(s, "or") { Option::Some(TokenKind::Or) }
        else if str_is(s, "not") { Option::Some(TokenKind::Not) }
        else { Option::None }
    }

    /// Renders the token kind as source-style text.
    pub fn to_text(&self) -> (r: String) {
        match self {
            TokenKind::Let => "let".to_owned(),
            TokenKind::Mut => "mut".to_owned(),
            TokenKind::Fn => "fn".to_owned(),
            TokenKind::Return => "return".to_owned(),
            TokenKind::If => "if".to_owned(),
            TokenKind::Else => "else".to_owned(),
            TokenKind::For => "for".to_owned(),
            TokenKind::In => "in".to_owned(),
            TokenKind::While => "while".to_owned(),
            TokenKind::Break => "break".to_owned(),
            TokenKind::Continue => "continue".to_owned(),
            TokenKind::Match => "match".to_owned(),
            TokenKind::Struct => "struct".to_owned(),
            TokenKind::Enum => "enum".to_owned(),
            TokenKind::Impl => "impl".to_owned(),
            TokenKind::Trait => "trait".to_owned(),
            TokenKind::Type => "type".to_owned(),
            TokenKind::Api => "api".to_owned(),
            TokenKind::Ws => "ws".to_owned(),
            TokenKind::Server => "server".to_owned(),
            TokenKind::Middleware => "middleware".to_owned(),
            TokenKind::Use => "use".to_owned(),
            TokenKind::Body => "body".to_owned(),
            TokenKind::Query => "query".to_owned(),
            TokenKind::Header => "header".to_owned(),
            TokenKind::Get => "GET".to_owned(),
            TokenKind::Post => "POST".to_owned(),
            TokenKind::Put => "PUT".to_owned(),
            TokenKind::Delete => "DELETE".to_owned(),
            TokenKind::Patch => "PATCH".to_owned(),
            TokenKind::Async => "async".to_owned(),
            TokenKind::Await => "await".to_owned(),
            TokenKind::Db => "db".to_owned(),
            TokenKind::Transaction => "transaction".to_owned(),
            TokenKind::Module => "module".to_owned(),
            TokenKind::Import => "import".to_owned(),
            TokenKind::From => "from".to_owned(),
            TokenKind::As => "as".to_owned(),
            TokenKind::Pub => "pub".to_owned(),
            TokenKind::NoneKw => "None".to_owned(),
            TokenKind::SomeKw => "Some".to_owned(),
            TokenKind::OkKw => "Ok".to_owned(),
            TokenKind::ErrKw => "Err".to_owned(),
            TokenKind::True => "true".to_owned(),
            TokenKind::False => "false".to_owned(),
            TokenKind::Is => "is".to_owned(),
            TokenKind::Copy => "copy".to_owned(),
            TokenKind::IntType => "int".to_owned(),
            TokenKind::FloatType => "float".to_owned(),
            TokenKind::BoolType => "bool".to_owned(),
            TokenKind::StringType => "string".to_owned(),
            TokenKind::ResultType => "Result".to_owned(),
            TokenKind::OptionType => "Option".to_owned(),
            TokenKind::IntLit(n) => i64_to_dec(*n),
            TokenKind::FloatLit(t) => t.clone(),
            TokenKind::StringLit(s) => {
                let mut out = "\"".to_owned();
                push_str(&mut out, s.as_str());
                push_char(&mut out, '"');
                out
            },
            TokenKind::InterpolatedString(parts) => {
                let mut out = "f\"".to_owned();
                let mut i: usize = 0;
                while i < parts.len()
                    decreases parts.len() - i,
                {
                    push_str(&mut out, parts[i].0.as_str());
                    if !parts[i].1.as_str().is_empty() {
                        push_char(&mut out, '{');
                        push_str(&mut out, parts[i].1.as_str());
                        push_char(&mut out, '}');
                    }
                    i = i + 1;
                }
                push_char(&mut out, '"');
                out
            },
            TokenKind::Ident(s) => s.clone(),
            TokenKind::Plus => "+".to_owned(),
            TokenKind::Minus => "-".to_owned(),
            TokenKind::Star => "*".to_owned(),
            TokenKind::Slash => "/".to_owned(),
            TokenKind::Percent => "%".to_owned(),
            TokenKind::EqEq => "==".to_owned(),
            TokenKind::Ne => "!=".to_owned(),
            TokenKind::Lt => "<".to_owned(),
            TokenKind::Le => "<=".to_owned(),
            TokenKind::Gt => ">".to_owned(),
            TokenKind::Ge => ">=".to_owned(),
            TokenKind::And => "and".to_owned(),
            TokenKind::Or => "or".to_owned(),
            TokenKind::Not => "not".to_owned(),
            TokenKind::Eq => "=".to_owned(),
            TokenKind::PlusEq => "+=".to_owned(),
            TokenKind::MinusEq => "-=".to_owned(),
            TokenKind::StarEq => "*=".to_owned(),
            TokenKind::SlashEq => "/=".to_owned(),
            TokenKind::Ampersand => "&".to_owned(),
            TokenKind::AmpersandMut => "&mut".to_owned(),
            TokenKind::Arrow => "->".to_owned(),
            TokenKind::Colon => ":".to_owned(),
            TokenKind::ColonColon => "::".to_owned(),
            TokenKind::Comma => ",".to_owned(),
            TokenKind::Dot => ".".to_owned(),
            TokenKind::DotDot => "..".to_owned(),
            TokenKind::DotDotEq => "..=".to_owned(),
            TokenKind::LParen => "(".to_owned(),
            TokenKind::RParen => ")".to_owned(),
            TokenKind::LBrace => "{".to_owned(),
            TokenKind::RBrace => "}".to_owned(),
            TokenKind::LBracket => "[".to_owned(),
            TokenKind::RBracket => "]".to_owned(),
            TokenKind::LAngle => "<".to_owned(),
            TokenKind::RAngle => ">".to_owned(),
            TokenKind::Pipe => "|".to_owned(),
            TokenKind::Dollar => "$".to_owned(),
            TokenKind::Question => "?".to_owned(),
            TokenKind::Newline => "NEWLINE".to_owned(),
            TokenKind::Indent => "INDENT".to_owned(),
            TokenKind::Dedent => "DEDENT".to_owned(),
            TokenKind::Eof => "EOF".to_owned(),
            TokenKind::Error(msg) => {
                let mut out = "ERROR(".to_owned();
                push_str(&mut out, msg.as_str());
                push_char(&mut out, ')');
                out
            },
        }
    }
}

/// A token with its location in the source code.
#[derive(Debug, Clone, PartialEq)]
pub struct Token {
    /// The token kind.
    pub kind: TokenKind,
    /// Location in the source code.
    pub span: Span,
}

impl Token {
    pub fn new(kind: TokenKind, span: Span) -> (r: Self)
        ensures
            r == (Token { kind, span }),
    {
        Token { kind, span }
    }

    /// Checks whether the token has the same kind, ignoring payloads.
    pub fn is(&self, kind: &TokenKind) -> (r: bool) {
        self.kind.same_kind(kind)
    }

    /// Checks whether the token is the end of file.
    pub fn is_eof(&self) -> (r: bool)
        ensures
            r == (self.kind is Eof),
    {
        matches!(self.kind, TokenKind::Eof)
    }

    /// Checks whether the token is a lexing error.
    pub fn is_error(&self) -> (r: bool)
        ensures
            r == (self.kind is Error),
    {
        matches!(self.kind, TokenKind::Error(_))
    }
}

} // verus!
