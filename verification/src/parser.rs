//! The parser: recursive descent over the token stream, producing the
//! syntax tree. Every recursive production carries explicit fuel, so the
//! whole parse is plainly terminating; the fuel is far beyond what any input
//! can consume.

use vstd::prelude::*;

use crate::ast::{
    ApiDecl, BinOp, ClosureBody, ClosureParam, DbDecl, DbType, EnumDecl, EnumVariant,
    EnumVariantData, Expr, Field, FnDecl, GenericParam, HttpMethod, ImplTraitDecl, ImportItem,
    ImportItems, MatchArm, MethodDecl, MethodReceiver, MiddlewareDecl, Param, Pattern, Program,
    ServerDecl, Stmt, StructDecl, TraitDecl, TraitMethod, Type, UnaryOp, VariantPatternData,
    WsDecl,
};
use crate::diagnostic::{Diagnostic, ErrorCode};
use crate::diagnostics::Diagnostics;
use crate::span::Span;
use crate::text::{cat2, string_is};
use crate::token::{Token, TokenKind};

verus! {

/// The Mendes language parser.
pub struct Parser {
    /// Tokens to be parsed; never empty.
    tokens: Vec<Token>,
    /// Current position.
    pos: usize,
    /// Accumulated diagnostics.
    diagnostics: Diagnostics,
}

impl Parser {
    /// The token buffer is never empty and the cursor stays in bounds.
    pub closed spec fn wf(&self) -> bool {
        self.tokens@.len() >= 1 && self.pos <= self.tokens@.len()
    }

    /// The accumulated diagnostics.
    pub closed spec fn spec_diags(&self) -> Seq<Diagnostic> {
        self.diagnostics@
    }

    /// The token buffer.
    pub closed spec fn spec_tokens(&self) -> Seq<Token> {
        self.tokens@
    }

    /// The cursor position.
    pub closed spec fn spec_pos(&self) -> int {
        self.pos as int
    }

    /// The token under the cursor; at the end, the final token.
    pub closed spec fn spec_cur(&self) -> Token {
        if self.pos < self.tokens@.len() {
            self.tokens@[self.pos as int]
        } else {
            self.tokens@.last()
        }
    }

    /// Creates a parser over the given tokens. An empty token stream is
    /// padded with an end-of-file token.
    pub fn new(tokens: Vec<Token>) -> (r: Self)
        ensures
            r.wf(),
            r.spec_diags().len() == 0,
            tokens@.len() >= 1 ==> r.spec_tokens() == tokens@ && r.spec_pos() == 0,
    {
        let mut tokens = tokens;
        if tokens.len() == 0 {
            tokens.push(
                Token::new(TokenKind::Eof, Span::point(crate::span::Position::new(1, 1, 0), 0)),
            );
        }
        Parser { tokens, pos: 0, diagnostics: Diagnostics::new() }
    }

    /// The accumulated diagnostics.
    pub fn diagnostics(&self) -> (r: &Diagnostics) {
        &self.diagnostics
    }

    /// Moves the accumulated diagnostics out.
    pub fn take_diagnostics(&mut self) -> (r: Diagnostics)
        ensures
            final(self).wf() == old(self).wf(),
            r@ == old(self).spec_diags(),
    {
        self.diagnostics.take()
    }

    /// The current token; at the end, the last token.
    fn peek(&self) -> (r: &Token)
        requires
            self.wf(),
        ensures
            *r == self.spec_cur(),
    {
        if self.pos < self.tokens.len() {
            &self.tokens[self.pos]
        } else {
            &self.tokens[self.tokens.len() - 1]
        }
    }

    /// The token after the current one.
    fn peek_next(&self) -> (r: &Token)
        requires
            self.wf(),
    {
        if self.pos < usize::MAX - 1 && self.pos + 1 < self.tokens.len() {
            &self.tokens[self.pos + 1]
        } else {
            &self.tokens[self.tokens.len() - 1]
        }
    }

    /// Whether the current token has the given kind (payloads ignored).
    fn check(&self, kind: &TokenKind) -> (r: bool)
        requires
            self.wf(),
    {
        self.peek().kind.same_kind(kind)
    }

    /// Whether the parser has reached the end of file.
    fn is_at_end(&self) -> (r: bool)
        requires
            self.wf(),
        ensures
            r == (self.spec_cur().kind is Eof),
    {
        matches!(self.peek().kind, TokenKind::Eof)
    }

    /// Advances to the next token.
    fn advance(&mut self)
        requires
            old(self).wf(),
        ensures
            final(self).wf(),
            final(self).tokens == old(self).tokens,
            final(self).pos >= old(self).pos,
            final(self).diagnostics == old(self).diagnostics,
            old(self).spec_cur().kind is Eof ==> *final(self) == *old(self),
    {
        if !self.is_at_end() && self.pos < self.tokens.len() {
            self.pos = self.pos + 1;
        }
    }

    /// The previous token (or the first, at the start).
    fn previous(&self) -> (r: &Token)
        requires
            self.wf(),
    {
        let i = if self.pos > 0 {
            self.pos - 1
        } else {
            0
        };
        if i < self.tokens.len() {
            &self.tokens[i]
        } else {
            &self.tokens[self.tokens.len() - 1]
        }
    }

    /// The span of the previous token.
    fn previous_span(&self) -> (r: Span)
        requires
            self.wf(),
    {
        self.previous().span
    }

    /// Consumes the current token if it has the given kind.
    fn match_token(&mut self, kind: &TokenKind) -> (r: bool)
        requires
            old(self).wf(),
        ensures
            final(self).wf(),
            final(self).tokens == old(self).tokens,
            final(self).pos >= old(self).pos,
    {
        if self.check(kind) {
            self.advance();
            true
        } else {
            false
        }
    }

    /// Requires a token of the given kind, or reports an error.
    fn expect(&mut self, kind: &TokenKind, message: &str) -> (r: Result<(), ()>)
        requires
            old(self).wf(),
        ensures
            final(self).wf(),
            final(self).tokens == old(self).tokens,
            final(self).pos >= old(self).pos,
    {
        if self.check(kind) {
            self.advance();
            Ok(())
        } else {
            self.error_at_current(message);
            Err(())
        }
    }

    /// Skips newline tokens.
    fn skip_newlines(&mut self)
        requires
            old(self).wf(),
        ensures
            final(self).wf(),
            final(self).tokens == old(self).tokens,
            final(self).pos >= old(self).pos,
            final(self).diagnostics == old(self).diagnostics,
            old(self).spec_cur().kind is Eof ==> *final(self) == *old(self),
    {
        let ghost t0 = self.tokens;
        let mut guard: usize = self.tokens.len();
        loop
            invariant
                self.wf(),
                t0 == old(self).tokens,
                self.tokens == t0,
                self.pos >= old(self).pos,
                self.diagnostics == old(self).diagnostics,
                old(self).spec_cur().kind is Eof ==> *self == *old(self),
            decreases guard,
        {
            if guard == 0 {
                break;
            }
            guard = guard - 1;
            if self.check(&TokenKind::Newline) && self.pos < self.tokens.len() {
                self.advance();
            } else {
                break;
            }
        }
    }

    /// Reports an error at the current token.
    fn error_at_current(&mut self, message: &str)
        requires
            old(self).wf(),
        ensures
            final(self).wf(),
            final(self).tokens == old(self).tokens,
            final(self).pos == old(self).pos,
    {
        let span = self.peek().span;
        let found = self.peek().kind.to_text();
        let label = cat2("found: ", found.as_str());
        self.diagnostics.push(
            Diagnostic::error(message).with_code(ErrorCode::unexpected_token()).with_label(
                span,
                label.as_str(),
            ),
        );
    }

    /// Skips ahead to a statement boundary after an error.
    fn synchronize(&mut self)
        requires
            old(self).wf(),
        ensures
            final(self).wf(),
            final(self).tokens == old(self).tokens,
            final(self).pos >= old(self).pos,
    {
        self.advance();

        let ghost t0 = self.tokens;
        let mut guard: usize = self.tokens.len();
        loop
            invariant
                self.wf(),
                t0 == old(self).tokens,
                self.tokens == t0,
                self.pos >= old(self).pos,
            decreases guard,
        {
            if guard == 0 || self.is_at_end() || self.pos >= self.tokens.len() {
                break;
            }
            guard = guard - 1;
            if matches!(self.previous().kind, TokenKind::Newline) {
                let stop = match self.peek().kind {
                    TokenKind::Let | TokenKind::Fn | TokenKind::Struct | TokenKind::Enum
                        | TokenKind::Api | TokenKind::Ws | TokenKind::Server
                        | TokenKind::Middleware | TokenKind::Db | TokenKind::If | TokenKind::For
                        | TokenKind::While | TokenKind::Return => true,
                    _ => false,
                };
                if stop {
                    return;
                }
            }
            self.advance();
        }
    }

    /// Expects the end of a line: a newline, a dedent, or the end of file.
    fn expect_newline(&mut self) -> (r: Result<(), ()>)
        requires
            old(self).wf(),
        ensures
            final(self).wf(),
            final(self).tokens == old(self).tokens,
            final(self).pos >= old(self).pos,
    {
        if self.check(&TokenKind::Newline) || self.check(&TokenKind::Eof) || self.check(
            &TokenKind::Dedent,
        ) {
            self.match_token(&TokenKind::Newline);
            Ok(())
        } else {
            self.error_at_current("expected end of line");
            Err(())
        }
    }

    /// Parses an identifier token.
    fn parse_identifier(&mut self) -> (r: Result<String, ()>)
        requires
            old(self).wf(),
        ensures
            final(self).wf(),
            final(self).tokens == old(self).tokens,
            final(self).pos >= old(self).pos,
    {
        let name: Option<String> = match &self.peek().kind {
            TokenKind::Ident(n) => Some(n.clone()),
            _ => None,
        };
        match name {
            Some(n) => {
                self.advance();
                Ok(n)
            },
            None => {
                self.error_at_current("identifier expected");
                Err(())
            },
        }
    }

    /// Parses the complete program.
    pub fn parse(&mut self) -> (r: Program)
        requires
            old(self).wf(),
        ensures
            final(self).wf(),
            old(self).spec_cur().kind is Eof ==> (r.statements@.len() == 0
                && final(self).spec_diags() == old(self).spec_diags()),
    {
        let mut statements: Vec<Stmt> = Vec::new();

        self.skip_newlines();

        let fuel: u64 = initial_fuel(self.tokens.len());
        let ghost t0 = self.tokens;
        let mut guard: usize = self.tokens.len();
        loop
            invariant_except_break
                old(self).spec_cur().kind is Eof ==> (*self == *old(self) && statements@.len()
                    == 0),
            invariant
                self.wf(),
                self.tokens == t0,
            ensures
                old(self).spec_cur().kind is Eof ==> (*self == *old(self) && statements@.len()
                    == 0),
            decreases guard,
        {
            if guard == 0 || self.is_at_end() {
                break;
            }
            guard = guard - 1;
            match self.parse_statement(fuel) {
                Ok(stmt) => statements.push(stmt),
                Err(_) => self.synchronize(),
            }
            self.skip_newlines();
        }

        Program { statements }
    }
}

/// The fuel handed to the recursive productions: far more than any token
/// stream can consume, and plainly finite.
fn initial_fuel(n_tokens: usize) -> (r: u64) {
    let n = n_tokens as u64;
    if n < 0x0000_0100_0000_0000u64 {
        64 * n + 4096
    } else {
        0xffff_ffff_ffff_0000u64
    }
}


impl Parser {
    /// The span of the current token.
    fn peek_span(&self) -> (r: Span)
        requires
            self.wf(),
    {
        self.peek().span
    }

    /// The current token's string-literal payload, if any.
    fn peek_string_lit(&self) -> (r: Option<String>)
        requires
            self.wf(),
    {
        match &self.peek().kind {
            TokenKind::StringLit(s) => Some(s.clone()),
            _ => None,
        }
    }

    /// The current token's integer payload, if any.
    fn peek_int_lit(&self) -> (r: Option<i64>)
        requires
            self.wf(),
    {
        match &self.peek().kind {
            TokenKind::IntLit(n) => Some(*n),
            _ => None,
        }
    }

    /// The current token's identifier payload, if any.
    fn peek_ident(&self) -> (r: Option<String>)
        requires
            self.wf(),
    {
        match &self.peek().kind {
            TokenKind::Ident(n) => Some(n.clone()),
            _ => None,
        }
    }

    /// Parses one statement.
    fn parse_statement(&mut self, fuel: u64) -> (r: Result<Stmt, ()>)
        requires
            old(self).wf(),
        ensures
            final(self).wf(),
            final(self).tokens == old(self).tokens,
        decreases fuel,
    {
        if fuel == 0 {
            self.error_at_current("statement nesting too deep");
            return Err(());
        }
        let f = fuel - 1;
        self.skip_newlines();

        match &self.peek().kind {
            TokenKind::Import => self.parse_import(f),
            TokenKind::From => self.parse_from_import(f),
            TokenKind::Module => self.parse_module(f),
            TokenKind::Let => self.parse_let(f),
            TokenKind::Fn => self.parse_fn(f),
            TokenKind::Struct => self.parse_struct(f),
            TokenKind::Enum => self.parse_enum(f),
            TokenKind::Trait => self.parse_trait(f),
            TokenKind::Impl => self.parse_impl(f),
            TokenKind::Type => self.parse_type_alias(f),
            TokenKind::Api => self.parse_api(f),
            TokenKind::Ws => self.parse_websocket(f),
            TokenKind::Server => self.parse_server(f),
            TokenKind::Middleware => self.parse_middleware(f),
            TokenKind::Db => self.parse_db(f),
            TokenKind::If => self.parse_if(f),
            TokenKind::For => self.parse_for(f),
            TokenKind::While => self.parse_while(f),
            TokenKind::Return => self.parse_return(f),
            TokenKind::Break => self.parse_break(f),
            TokenKind::Continue => self.parse_continue(f),
            _ => self.parse_expr_stmt(f),
        }
    }

    /// Parses `import "path"` or `import module_name [as alias]`.
    fn parse_import(&mut self, fuel: u64) -> (r: Result<Stmt, ()>)
        requires
            old(self).wf(),
        ensures
            final(self).wf(),
            final(self).tokens == old(self).tokens,
        decreases fuel,
    {
        if fuel == 0 {
            self.error_at_current("statement nesting too deep");
            return Err(());
        }
        let f = fuel - 1;
        let start_span = self.peek_span();
        self.advance();

        let path: String = match self.peek_string_lit() {
            Some(p) => {
                self.advance();
                p
            },
            None => self.parse_identifier()?,
        };

        let alias: Option<String> = if self.match_token(&TokenKind::As) {
            Some(self.parse_identifier()?)
        } else {
            None
        };

        let span = start_span.merge(self.previous_span());
        self.expect_newline()?;

        Ok(Stmt::Import { path, alias, span })
    }

    /// Parses `from module import item1, item2` or `from module import *`.
    fn parse_from_import(&mut self, fuel: u64) -> (r: Result<Stmt, ()>)
        requires
            old(self).wf(),
        ensures
            final(self).wf(),
            final(self).tokens == old(self).tokens,
        decreases fuel,
    {
        if fuel == 0 {
            self.error_at_current("statement nesting too deep");
            return Err(());
        }
        let f = fuel - 1;
        let start_span = self.peek_span();
        self.advance();

        let module = self.parse_module_path(f)?;

        if !self.match_token(&TokenKind::Import) {
            let span = self.peek_span();
            let found = self.peek().kind.to_text();
            let label = cat2("found: ", found.as_str());
            self.diagnostics.push(
                Diagnostic::error("expected 'import' after module name in from statement")
                    .with_code(ErrorCode::unexpected_token()).with_label(span, label.as_str()),
            );
            return Err(());
        }

        let items: ImportItems = if self.match_token(&TokenKind::Star) {
            ImportItems::All
        } else {
            let mut items: Vec<ImportItem> = Vec::new();
            let mut guard: usize = self.tokens.len();
            loop
                invariant
                    self.wf(),
                    self.tokens == old(self).tokens,
                    f < fuel,
                decreases guard,
            {
                if guard == 0 {
                    break;
                }
                guard = guard - 1;

                let item_span = self.peek_span();
                let name = self.parse_identifier()?;

                let alias: Option<String> = if self.match_token(&TokenKind::As) {
                    Some(self.parse_identifier()?)
                } else {
                    None
                };

                let item_end_span = self.previous_span();
                items.push(ImportItem { name, alias, span: item_span.merge(item_end_span) });

                if !self.match_token(&TokenKind::Comma) {
                    break;
                }
            }
            ImportItems::Names(items)
        };

        let span = start_span.merge(self.previous_span());
        self.expect_newline()?;

        Ok(Stmt::FromImport { module, items, span })
    }

    /// Parses a dotted module path.
    fn parse_module_path(&mut self, fuel: u64) -> (r: Result<String, ()>)
        requires
            old(self).wf(),
        ensures
            final(self).wf(),
            final(self).tokens == old(self).tokens,
        decreases fuel,
    {
        let mut path = self.parse_identifier()?;

        let mut guard: usize = self.tokens.len();
        loop
            invariant
                self.wf(),
                self.tokens == old(self).tokens,
            decreases guard,
        {
            if guard == 0 {
                break;
            }
            guard = guard - 1;
            if self.match_token(&TokenKind::Dot) {
                crate::text::push_char(&mut path, '.');
                let seg = self.parse_identifier()?;
                crate::text::push_str(&mut path, seg.as_str());
            } else {
                break;
            }
        }

        Ok(path)
    }

    /// Parses `module name`; kept for compatibility and otherwise ignored.
    fn parse_module(&mut self, fuel: u64) -> (r: Result<Stmt, ()>)
        requires
            old(self).wf(),
        ensures
            final(self).wf(),
            final(self).tokens == old(self).tokens,
        decreases fuel,
    {
        let span = self.peek_span();
        self.advance();
        let _name = self.parse_identifier()?;
        self.expect_newline()?;
        Ok(Stmt::Expr(Expr::OptionNone(span)))
    }

    /// Parses `let [mut] name [: type] = expr`.
    fn parse_let(&mut self, fuel: u64) -> (r: Result<Stmt, ()>)
        requires
            old(self).wf(),
        ensures
            final(self).wf(),
            final(self).tokens == old(self).tokens,
        decreases fuel,
    {
        if fuel == 0 {
            self.error_at_current("statement nesting too deep");
            return Err(());
        }
        let f = fuel - 1;
        let start_span = self.peek_span();
        self.advance();

        let mutable = self.match_token(&TokenKind::Mut);
        let name = self.parse_identifier()?;

        let ty: Option<Type> = if self.match_token(&TokenKind::Colon) {
            Some(self.parse_type(f)?)
        } else {
            None
        };

        self.expect(&TokenKind::Eq, "expected '=' after variable name")?;

        let value = self.parse_expression(f)?;

        let span = start_span.merge(self.previous_span());
        self.expect_newline()?;

        Ok(Stmt::Let { name, ty, value, mutable, span })
    }

    /// Parses a function declaration.
    fn parse_fn(&mut self, fuel: u64) -> (r: Result<Stmt, ()>)
        requires
            old(self).wf(),
        ensures
            final(self).wf(),
            final(self).tokens == old(self).tokens,
        decreases fuel,
    {
        if fuel == 0 {
            self.error_at_current("statement nesting too deep");
            return Err(());
        }
        let f = fuel - 1;
        let start_span = self.peek_span();
        let is_pub = false;

        self.advance();

        let name = self.parse_identifier()?;

        let generic_params: Vec<GenericParam> = if self.check(&TokenKind::Lt) {
            self.parse_generic_params(f)?
        } else {
            Vec::new()
        };

        self.expect(&TokenKind::LParen, "expected '(' after function name")?;
        let params = self.parse_param_list(f)?;
        self.expect(&TokenKind::RParen, "expected ')' after parameters")?;

        let return_type: Option<Type> = if self.match_token(&TokenKind::Arrow) {
            Some(self.parse_type(f)?)
        } else {
            None
        };

        let is_async = self.match_token(&TokenKind::Async);

        self.expect(&TokenKind::Colon, "expected ':' after function signature")?;
        self.expect_newline()?;

        let body = self.parse_block(f)?;

        let span = start_span.merge(self.previous_span());

        Ok(
            Stmt::Fn(
                FnDecl { name, generic_params, params, return_type, is_async, is_pub, body, span },
            ),
        )
    }

    /// Parses a struct declaration.
    fn parse_struct(&mut self, fuel: u64) -> (r: Result<Stmt, ()>)
        requires
            old(self).wf(),
        ensures
            final(self).wf(),
            final(self).tokens == old(self).tokens,
        decreases fuel,
    {
        if fuel == 0 {
            self.error_at_current("statement nesting too deep");
            return Err(());
        }
        let f = fuel - 1;
        let start_span = self.peek_span();
        self.advance();

        let name = self.parse_identifier()?;

        let generic_params: Vec<GenericParam> = if self.check(&TokenKind::Lt) {
            self.parse_generic_params(f)?
        } else {
            Vec::new()
        };

        let is_copy = self.match_token(&TokenKind::Copy);

        self.expect(&TokenKind::Colon, "expected ':' after struct name")?;
        self.expect_newline()?;

        let (fields, methods) = self.parse_struct_body(f)?;

        let span = start_span.merge(self.previous_span());

        Ok(Stmt::Struct(StructDecl { name, generic_params, fields, methods, is_copy, span }))
    }

    /// Parses an enum declaration.
    fn parse_enum(&mut self, fuel: u64) -> (r: Result<Stmt, ()>)
        requires
            old(self).wf(),
        ensures
            final(self).wf(),
            final(self).tokens == old(self).tokens,
        decreases fuel,
    {
        if fuel == 0 {
            self.error_at_current("statement nesting too deep");
            return Err(());
        }
        let f = fuel - 1;
        let start_span = self.peek_span();
        self.advance();

        let name = self.parse_identifier()?;

        self.expect(&TokenKind::Colon, "expected ':' after enum name")?;
        self.expect_newline()?;

        let variants = self.parse_enum_variants(f)?;

        let span = start_span.merge(self.previous_span());

        Ok(Stmt::Enum(EnumDecl { name, variants, span }))
    }

    /// Parses the variants of an enum body.
    fn parse_enum_variants(&mut self, fuel: u64) -> (r: Result<Vec<EnumVariant>, ()>)
        requires
            old(self).wf(),
        ensures
            final(self).wf(),
            final(self).tokens == old(self).tokens,
        decreases fuel,
    {
        if fuel == 0 {
            self.error_at_current("statement nesting too deep");
            return Err(());
        }
        let f = fuel - 1;
        self.expect(&TokenKind::Indent, "expected indented block for enum")?;

        let mut variants: Vec<EnumVariant> = Vec::new();

        let mut guard: usize = self.tokens.len();
        loop
            invariant
                self.wf(),
                self.tokens == old(self).tokens,
                f < fuel,
            decreases guard,
        {
            if guard == 0 || self.check(&TokenKind::Dedent) || self.is_at_end() {
                break;
            }
            guard = guard - 1;
            self.skip_newlines();
            if self.check(&TokenKind::Dedent) {
                break;
            }

            let variant_span = self.peek_span();
            let variant_name = self.parse_identifier()?;

            let data: EnumVariantData = if self.match_token(&TokenKind::LParen) {
                let mut types: Vec<Type> = Vec::new();
                if !self.check(&TokenKind::RParen) {
                    types.push(self.parse_type(f)?);
                    let mut guard2: usize = self.tokens.len();
                    loop
                        invariant
                            self.wf(),
                            self.tokens == old(self).tokens,
                            f < fuel,
                        decreases guard2,
                    {
                        if guard2 == 0 || !self.match_token(&TokenKind::Comma) {
                            break;
                        }
                        guard2 = guard2 - 1;
                        types.push(self.parse_type(f)?);
                    }
                }
                self.expect(&TokenKind::RParen, "expected ')' after variant types")?;
                EnumVariantData::Tuple(types)
            } else if self.match_token(&TokenKind::LBrace) {
                let mut fields: Vec<Field> = Vec::new();
                if !self.check(&TokenKind::RBrace) {
                    let mut guard2: usize = self.tokens.len();
                    loop
                        invariant
                            self.wf(),
                            self.tokens == old(self).tokens,
                            f < fuel,
                        decreases guard2,
                    {
                        if guard2 == 0 {
                            break;
                        }
                        guard2 = guard2 - 1;
                        let field_span = self.peek_span();
                        let field_name = self.parse_identifier()?;
                        self.expect(&TokenKind::Colon, "expected ':' after field name")?;
                        let field_type = self.parse_type(f)?;
                        fields.push(
                            Field {
                                name: field_name,
                                ty: field_type,
                                span: field_span.merge(self.previous_span()),
                            },
                        );
                        if !self.match_token(&TokenKind::Comma) {
                            break;
                        }
                    }
                }
                self.expect(&TokenKind::RBrace, "expected '}' after variant fields")?;
                EnumVariantData::Struct(fields)
            } else {
                EnumVariantData::Unit
            };

            variants.push(
                EnumVariant {
                    name: variant_name,
                    data,
                    span: variant_span.merge(self.previous_span()),
                },
            );

            self.skip_newlines();
        }

        self.match_token(&TokenKind::Dedent);

        Ok(variants)
    }

    /// Parses an API declaration.
    fn parse_api(&mut self, fuel: u64) -> (r: Result<Stmt, ()>)
        requires
            old(self).wf(),
        ensures
            final(self).wf(),
            final(self).tokens == old(self).tokens,
        decreases fuel,
    {
        if fuel == 0 {
            self.error_at_current("statement nesting too deep");
            return Err(());
        }
        let f = fuel - 1;
        let start_span = self.peek_span();
        self.advance();

        let method = self.parse_http_method()?;
        let path = self.parse_path_pattern()?;
        let is_async = self.match_token(&TokenKind::Async);

        self.expect(&TokenKind::Colon, "expected ':' after API path")?;
        self.expect_newline()?;

        let (middlewares, body_type, return_type, handler) = self.parse_api_body(f)?;

        let span = start_span.merge(self.previous_span());

        Ok(
            Stmt::Api(
                ApiDecl {
                    method,
                    path,
                    is_async,
                    middlewares,
                    body_type,
                    return_type,
                    handler,
                    span,
                },
            ),
        )
    }

    /// Parses a WebSocket declaration.
    fn parse_websocket(&mut self, fuel: u64) -> (r: Result<Stmt, ()>)
        requires
            old(self).wf(),
        ensures
            final(self).wf(),
            final(self).tokens == old(self).tokens,
        decreases fuel,
    {
        if fuel == 0 {
            self.error_at_current("statement nesting too deep");
            return Err(());
        }
        let f = fuel - 1;
        let start_span = self.peek_span();
        self.advance();

        let path = self.parse_path_pattern()?;

        self.expect(&TokenKind::Colon, "expected ':' after WebSocket path")?;
        self.expect_newline()?;
        self.expect(&TokenKind::Indent, "expected indented block for WebSocket")?;

        let mut middlewares: Vec<String> = Vec::new();
        let mut on_connect: Option<Vec<Stmt>> = None;
        let mut on_message: Option<Vec<Stmt>> = None;
        let mut on_disconnect: Option<Vec<Stmt>> = None;

        let mut guard: usize = self.tokens.len();
        loop
            invariant
                self.wf(),
                self.tokens == old(self).tokens,
                f < fuel,
            decreases guard,
        {
            if guard == 0 || self.check(&TokenKind::Dedent) || self.is_at_end() {
                break;
            }
            guard = guard - 1;
            self.skip_newlines();
            if self.check(&TokenKind::Dedent) {
                break;
            }

            match self.peek_ident() {
                Some(name) => {
                    if string_is(&name, "use") {
                        self.advance();
                        let middleware_name = self.parse_identifier()?;
                        middlewares.push(middleware_name);
                        self.skip_newlines();
                    } else if string_is(&name, "on_connect") {
                        self.advance();
                        self.expect(&TokenKind::Colon, "expected ':' after 'on_connect'")?;
                        self.expect_newline()?;
                        on_connect = Some(self.parse_block(f)?);
                    } else if string_is(&name, "on_message") {
                        self.advance();
                        self.expect(&TokenKind::Colon, "expected ':' after 'on_message'")?;
                        self.expect_newline()?;
                        on_message = Some(self.parse_block(f)?);
                    } else if string_is(&name, "on_disconnect") {
                        self.advance();
                        self.expect(&TokenKind::Colon, "expected ':' after 'on_disconnect'")?;
                        self.expect_newline()?;
                        on_disconnect = Some(self.parse_block(f)?);
                    } else {
                        let msg = cat2("unexpected WebSocket directive: ", name.as_str());
                        self.error_at_current(msg.as_str());
                        self.advance();
                    }
                },
                None => {
                    self.error_at_current(
                        "expected WebSocket event handler (on_connect, on_message, on_disconnect)",
                    );
                    self.advance();
                },
            }
        }

        self.match_token(&TokenKind::Dedent);

        let span = start_span.merge(self.previous_span());

        Ok(
            Stmt::WebSocket(
                WsDecl { path, middlewares, on_connect, on_message, on_disconnect, span },
            ),
        )
    }

    /// Parses a server configuration block.
    fn parse_server(&mut self, fuel: u64) -> (r: Result<Stmt, ()>)
        requires
            old(self).wf(),
        ensures
            final(self).wf(),
            final(self).tokens == old(self).tokens,
        decreases fuel,
    {
        if fuel == 0 {
            self.error_at_current("statement nesting too deep");
            return Err(());
        }
        let start_span = self.peek_span();
        self.advance();

        self.expect(&TokenKind::Colon, "expected ':' after 'server'")?;
        self.expect_newline()?;
        self.expect(&TokenKind::Indent, "expected indented block")?;

        let mut host: String = "0.0.0.0".to_owned();
        let mut port: u16 = 8080;

        let mut guard: usize = self.tokens.len();
        loop
            invariant
                self.wf(),
                self.tokens == old(self).tokens,
            decreases guard,
        {
            if guard == 0 || self.check(&TokenKind::Dedent) || self.is_at_end() {
                break;
            }
            guard = guard - 1;
            self.skip_newlines();
            if self.check(&TokenKind::Dedent) {
                break;
            }

            match self.peek_ident() {
                Some(name) => {
                    self.advance();
                    if string_is(&name, "host") {
                        match self.peek_string_lit() {
                            Some(s) => {
                                host = s;
                                self.advance();
                            },
                            None => {},
                        }
                    } else if string_is(&name, "port") {
                        match self.peek_int_lit() {
                            Some(p) => {
                                port = (p as u64 & 0xffffu64) as u16;
                                self.advance();
                            },
                            None => {},
                        }
                    }
                },
                None => {},
            }
            self.skip_newlines();
        }

        self.match_token(&TokenKind::Dedent);

        let span = start_span.merge(self.previous_span());

        Ok(Stmt::Server(ServerDecl { host, port, span }))
    }

    /// Parses a middleware declaration.
    fn parse_middleware(&mut self, fuel: u64) -> (r: Result<Stmt, ()>)
        requires
            old(self).wf(),
        ensures
            final(self).wf(),
            final(self).tokens == old(self).tokens,
        decreases fuel,
    {
        if fuel == 0 {
            self.error_at_current("statement nesting too deep");
            return Err(());
        }
        let f = fuel - 1;
        let start_span = self.peek_span();
        self.advance();

        let name = self.parse_identifier()?;

        self.expect(&TokenKind::Colon, "expected ':' after middleware name")?;
        self.expect_newline()?;

        let body = self.parse_block(f)?;

        let span = start_span.merge(self.previous_span());

        Ok(Stmt::Middleware(MiddlewareDecl { name, body, span }))
    }

    /// Parses a database declaration.
    fn parse_db(&mut self, fuel: u64) -> (r: Result<Stmt, ()>)
        requires
            old(self).wf(),
        ensures
            final(self).wf(),
            final(self).tokens == old(self).tokens,
        decreases fuel,
    {
        if fuel == 0 {
            self.error_at_current("statement nesting too deep");
            return Err(());
        }
        let start_span = self.peek_span();
        self.advance();

        let db_type = self.parse_db_type()?;
        let name = self.parse_identifier()?;

        self.expect(&TokenKind::Colon, "expected ':' after database name")?;
        self.expect_newline()?;
        self.expect(&TokenKind::Indent, "expected indented block")?;

        let mut url: String = String::new();
        let mut pool_size: u32 = 10;

        let mut guard: usize = self.tokens.len();
        loop
            invariant
                self.wf(),
                self.tokens == old(self).tokens,
            decreases guard,
        {
            if guard == 0 || self.check(&TokenKind::Dedent) || self.is_at_end() {
                break;
            }
            guard = guard - 1;
            self.skip_newlines();
            if self.check(&TokenKind::Dedent) {
                break;
            }

            match self.peek_ident() {
                Some(field_name) => {
                    self.advance();
                    if string_is(&field_name, "url") {
                        match self.peek_string_lit() {
                            Some(s) => {
                                url = s;
                                self.advance();
                            },
                            None => {},
                        }
                    } else if string_is(&field_name, "pool") {
                        match self.peek_int_lit() {
                            Some(p) => {
                                pool_size = (p as u64 & 0xffff_ffffu64) as u32;
                                self.advance();
                            },
                            None => {},
                        }
                    }
                },
                None => {},
            }
            self.skip_newlines();
        }

        self.match_token(&TokenKind::Dedent);

        let span = start_span.merge(self.previous_span());

        Ok(Stmt::Db(DbDecl { db_type, name, url, pool_size, span }))
    }

    /// Parses an if statement, with an optional else block.
    fn parse_if(&mut self, fuel: u64) -> (r: Result<Stmt, ()>)
        requires
            old(self).wf(),
        ensures
            final(self).wf(),
            final(self).tokens == old(self).tokens,
        decreases fuel,
    {
        if fuel == 0 {
            self.error_at_current("statement nesting too deep");
            return Err(());
        }
        let f = fuel - 1;
        let start_span = self.peek_span();
        self.advance();

        let condition = self.parse_expression(f)?;

        self.expect(&TokenKind::Colon, "expected ':' after condition")?;
        self.expect_newline()?;

        let then_block = self.parse_block(f)?;

        let else_block: Option<Vec<Stmt>> = if self.match_token(&TokenKind::Else) {
            self.expect(&TokenKind::Colon, "expected ':' after 'else'")?;
            self.expect_newline()?;
            Some(self.parse_block(f)?)
        } else {
            None
        };

        let span = start_span.merge(self.previous_span());

        Ok(Stmt::If { condition, then_block, else_block, span })
    }

    /// Parses a for loop.
    fn parse_for(&mut self, fuel: u64) -> (r: Result<Stmt, ()>)
        requires
            old(self).wf(),
        ensures
            final(self).wf(),
            final(self).tokens == old(self).tokens,
        decreases fuel,
    {
        if fuel == 0 {
            self.error_at_current("statement nesting too deep");
            return Err(());
        }
        let f = fuel - 1;
        let start_span = self.peek_span();
        self.advance();

        let var = self.parse_identifier()?;

        self.expect(&TokenKind::In, "expected 'in' after variable")?;

        let iter = self.parse_expression(f)?;

        self.expect(&TokenKind::Colon, "expected ':' after expression")?;
        self.expect_newline()?;

        let body = self.parse_block(f)?;

        let span = start_span.merge(self.previous_span());

        Ok(Stmt::For { var, iter, body, span })
    }

    /// Parses a while loop.
    fn parse_while(&mut self, fuel: u64) -> (r: Result<Stmt, ()>)
        requires
            old(self).wf(),
        ensures
            final(self).wf(),
            final(self).tokens == old(self).tokens,
        decreases fuel,
    {
        if fuel == 0 {
            self.error_at_current("statement nesting too deep");
            return Err(());
        }
        let f = fuel - 1;
        let start_span = self.peek_span();
        self.advance();

        let condition = self.parse_expression(f)?;

        self.expect(&TokenKind::Colon, "expected ':' after condition")?;
        self.expect_newline()?;

        let body = self.parse_block(f)?;

        let span = start_span.merge(self.previous_span());

        Ok(Stmt::While { condition, body, span })
    }

    /// Parses a return statement, with an optional value.
    fn parse_return(&mut self, fuel: u64) -> (r: Result<Stmt, ()>)
        requires
            old(self).wf(),
        ensures
            final(self).wf(),
            final(self).tokens == old(self).tokens,
        decreases fuel,
    {
        if fuel == 0 {
            self.error_at_current("statement nesting too deep");
            return Err(());
        }
        let f = fuel - 1;
        let start_span = self.peek_span();
        self.advance();

        let value: Option<Expr> = if !self.check(&TokenKind::Newline) && !self.check(
            &TokenKind::Dedent,
        ) {
            Some(self.parse_expression(f)?)
        } else {
            None
        };

        let span = start_span.merge(self.previous_span());
        self.expect_newline()?;

        Ok(Stmt::Return { value, span })
    }

    /// Parses `break`.
    fn parse_break(&mut self, fuel: u64) -> (r: Result<Stmt, ()>)
        requires
            old(self).wf(),
        ensures
            final(self).wf(),
            final(self).tokens == old(self).tokens,
        decreases fuel,
    {
        let span = self.peek_span();
        self.advance();
        self.expect_newline()?;
        Ok(Stmt::Break { span })
    }

    /// Parses `continue`.
    fn parse_continue(&mut self, fuel: u64) -> (r: Result<Stmt, ()>)
        requires
            old(self).wf(),
        ensures
            final(self).wf(),
            final(self).tokens == old(self).tokens,
        decreases fuel,
    {
        let span = self.peek_span();
        self.advance();
        self.expect_newline()?;
        Ok(Stmt::Continue { span })
    }

    /// Parses `type Name = Type`.
    fn parse_type_alias(&mut self, fuel: u64) -> (r: Result<Stmt, ()>)
        requires
            old(self).wf(),
        ensures
            final(self).wf(),
            final(self).tokens == old(self).tokens,
        decreases fuel,
    {
        if fuel == 0 {
            self.error_at_current("statement nesting too deep");
            return Err(());
        }
        let f = fuel - 1;
        let start_span = self.peek_span();
        self.advance();

        let name = self.parse_identifier()?;
        self.expect(&TokenKind::Eq, "expected '=' after type name")?;
        let ty = self.parse_type(f)?;

        let span = start_span.merge(self.previous_span());
        self.expect_newline()?;

        Ok(Stmt::TypeAlias { name, ty, span })
    }

    /// Parses a trait declaration.
    fn parse_trait(&mut self, fuel: u64) -> (r: Result<Stmt, ()>)
        requires
            old(self).wf(),
        ensures
            final(self).wf(),
            final(self).tokens == old(self).tokens,
        decreases fuel,
    {
        if fuel == 0 {
            self.error_at_current("statement nesting too deep");
            return Err(());
        }
        let f = fuel - 1;
        let start_span = self.peek_span();
        self.advance();

        let name = self.parse_identifier()?;

        let generic_params: Vec<GenericParam> = if self.check(&TokenKind::Lt) {
            self.parse_generic_params(f)?
        } else {
            Vec::new()
        };

        self.expect(&TokenKind::Colon, "expected ':' after trait name")?;
        self.expect_newline()?;

        let methods = self.parse_trait_body(f)?;

        let span = start_span.merge(self.previous_span());

        Ok(Stmt::Trait(TraitDecl { name, generic_params, methods, span }))
    }

    /// Parses the signatures of a trait body.
    fn parse_trait_body(&mut self, fuel: u64) -> (r: Result<Vec<TraitMethod>, ()>)
        requires
            old(self).wf(),
        ensures
            final(self).wf(),
            final(self).tokens == old(self).tokens,
        decreases fuel,
    {
        if fuel == 0 {
            self.error_at_current("statement nesting too deep");
            return Err(());
        }
        let f = fuel - 1;
        self.expect(&TokenKind::Indent, "expected indented block for trait")?;

        let mut methods: Vec<TraitMethod> = Vec::new();

        let mut guard: usize = self.tokens.len();
        loop
            invariant
                self.wf(),
                self.tokens == old(self).tokens,
                f < fuel,
            decreases guard,
        {
            if guard == 0 || self.check(&TokenKind::Dedent) || self.is_at_end() {
                break;
            }
            guard = guard - 1;
            self.skip_newlines();
            if self.check(&TokenKind::Dedent) {
                break;
            }

            let m = self.parse_trait_method(f)?;
            methods.push(m);
            self.skip_newlines();
        }

        self.match_token(&TokenKind::Dedent);

        Ok(methods)
    }

    /// Parses one trait method signature.
    fn parse_trait_method(&mut self, fuel: u64) -> (r: Result<TraitMethod, ()>)
        requires
            old(self).wf(),
        ensures
            final(self).wf(),
            final(self).tokens == old(self).tokens,
        decreases fuel,
    {
        if fuel == 0 {
            self.error_at_current("statement nesting too deep");
            return Err(());
        }
        let f = fuel - 1;
        let start_span = self.peek_span();

        self.expect(&TokenKind::Fn, "expected 'fn' for trait method")?;

        let name = self.parse_identifier()?;

        self.expect(&TokenKind::LParen, "expected '(' after method name")?;

        let receiver = self.parse_method_receiver()?;

        let mut params: Vec<Param> = Vec::new();
        if self.match_token(&TokenKind::Comma) {
            if !self.check(&TokenKind::RParen) {
                params = self.parse_param_list(f)?;
            }
        }

        self.expect(&TokenKind::RParen, "expected ')' after parameters")?;

        let return_type: Option<Type> = if self.match_token(&TokenKind::Arrow) {
            Some(self.parse_type(f)?)
        } else {
            None
        };

        let is_async = self.match_token(&TokenKind::Async);

        let span = start_span.merge(self.previous_span());
        self.expect_newline()?;

        Ok(TraitMethod { name, params, return_type, is_async, receiver, span })
    }

    /// Parses `impl TraitName for TypeName:`.
    fn parse_impl(&mut self, fuel: u64) -> (r: Result<Stmt, ()>)
        requires
            old(self).wf(),
        ensures
            final(self).wf(),
            final(self).tokens == old(self).tokens,
        decreases fuel,
    {
        if fuel == 0 {
            self.error_at_current("statement nesting too deep");
            return Err(());
        }
        let f = fuel - 1;
        let start_span = self.peek_span();
        self.advance();

        let trait_name = self.parse_identifier()?;

        let generic_params: Vec<GenericParam> = if self.check(&TokenKind::Lt) {
            self.parse_generic_params(f)?
        } else {
            Vec::new()
        };

        self.expect(&TokenKind::For, "expected 'for' after trait name")?;
        let target_type = self.parse_identifier()?;

        self.expect(&TokenKind::Colon, "expected ':' after type name")?;
        self.expect_newline()?;

        let methods = self.parse_impl_body(f)?;

        let span = start_span.merge(self.previous_span());

        Ok(Stmt::ImplTrait(ImplTraitDecl { trait_name, target_type, generic_params, methods, span }))
    }

    /// Parses the methods of an impl body.
    fn parse_impl_body(&mut self, fuel: u64) -> (r: Result<Vec<MethodDecl>, ()>)
        requires
            old(self).wf(),
        ensures
            final(self).wf(),
            final(self).tokens == old(self).tokens,
        decreases fuel,
    {
        if fuel == 0 {
            self.error_at_current("statement nesting too deep");
            return Err(());
        }
        let f = fuel - 1;
        self.expect(&TokenKind::Indent, "expected indented block for impl")?;

        let mut methods: Vec<MethodDecl> = Vec::new();

        let mut guard: usize = self.tokens.len();
        loop
            invariant
                self.wf(),
                self.tokens == old(self).tokens,
                f < fuel,
            decreases guard,
        {
            if guard == 0 || self.check(&TokenKind::Dedent) || self.is_at_end() {
                break;
            }
            guard = guard - 1;
            self.skip_newlines();
            if self.check(&TokenKind::Dedent) {
                break;
            }

            let m = self.parse_method(f)?;
            methods.push(m);
            self.skip_newlines();
        }

        self.match_token(&TokenKind::Dedent);

        Ok(methods)
    }

    /// Parses generic parameters: `<T, U: Trait>`.
    fn parse_generic_params(&mut self, fuel: u64) -> (r: Result<Vec<GenericParam>, ()>)
        requires
            old(self).wf(),
        ensures
            final(self).wf(),
            final(self).tokens == old(self).tokens,
        decreases fuel,
    {
        if fuel == 0 {
            self.error_at_current("statement nesting too deep");
            return Err(());
        }
        self.expect(&TokenKind::Lt, "expected '<'")?;

        let mut params: Vec<GenericParam> = Vec::new();

        if !self.check(&TokenKind::Gt) {
            let mut guard: usize = self.tokens.len();
            loop
                invariant
                    self.wf(),
                    self.tokens == old(self).tokens,
                decreases guard,
            {
                if guard == 0 {
                    break;
                }
                guard = guard - 1;

                let span = self.peek_span();
                let name = self.parse_identifier()?;

                let mut bounds: Vec<String> = Vec::new();
                if self.match_token(&TokenKind::Colon) {
                    bounds.push(self.parse_identifier()?);
                    let mut guard2: usize = self.tokens.len();
                    loop
                        invariant
                            self.wf(),
                            self.tokens == old(self).tokens,
                        decreases guard2,
                    {
                        if guard2 == 0 || !self.match_token(&TokenKind::Plus) {
                            break;
                        }
                        guard2 = guard2 - 1;
                        bounds.push(self.parse_identifier()?);
                    }
                }

                params.push(GenericParam { name, bounds, span: span.merge(self.previous_span()) });

                if !self.match_token(&TokenKind::Comma) {
                    break;
                }
            }
        }

        self.expect(&TokenKind::Gt, "expected '>'")?;

        Ok(params)
    }

    /// Parses an expression statement.
    fn parse_expr_stmt(&mut self, fuel: u64) -> (r: Result<Stmt, ()>)
        requires
            old(self).wf(),
        ensures
            final(self).wf(),
            final(self).tokens == old(self).tokens,
        decreases fuel,
    {
        if fuel == 0 {
            self.error_at_current("statement nesting too deep");
            return Err(());
        }
        let f = fuel - 1;
        let expr = self.parse_expression(f)?;
        self.expect_newline()?;
        Ok(Stmt::Expr(expr))
    }

    /// Parses an indented block of statements.
    fn parse_block(&mut self, fuel: u64) -> (r: Result<Vec<Stmt>, ()>)
        requires
            old(self).wf(),
        ensures
            final(self).wf(),
            final(self).tokens == old(self).tokens,
        decreases fuel,
    {
        if fuel == 0 {
            self.error_at_current("statement nesting too deep");
            return Err(());
        }
        let f = fuel - 1;
        self.expect(&TokenKind::Indent, "expected indented block")?;

        let mut statements: Vec<Stmt> = Vec::new();

        let mut guard: usize = self.tokens.len();
        loop
            invariant
                self.wf(),
                self.tokens == old(self).tokens,
                f < fuel,
            decreases guard,
        {
            if guard == 0 || self.check(&TokenKind::Dedent) || self.is_at_end() {
                break;
            }
            guard = guard - 1;
            self.skip_newlines();
            if self.check(&TokenKind::Dedent) {
                break;
            }

            match self.parse_statement(f) {
                Ok(stmt) => statements.push(stmt),
                Err(_) => self.synchronize(),
            }
        }

        self.match_token(&TokenKind::Dedent);

        Ok(statements)
    }

    /// Parses a struct body: fields and methods.
    fn parse_struct_body(&mut self, fuel: u64) -> (r: Result<(Vec<Field>, Vec<MethodDecl>), ()>)
        requires
            old(self).wf(),
        ensures
            final(self).wf(),
            final(self).tokens == old(self).tokens,
        decreases fuel,
    {
        if fuel == 0 {
            self.error_at_current("statement nesting too deep");
            return Err(());
        }
        let f = fuel - 1;
        self.expect(&TokenKind::Indent, "expected indented block")?;

        let mut fields: Vec<Field> = Vec::new();
        let mut methods: Vec<MethodDecl> = Vec::new();

        let mut guard: usize = self.tokens.len();
        loop
            invariant
                self.wf(),
                self.tokens == old(self).tokens,
                f < fuel,
            decreases guard,
        {
            if guard == 0 || self.check(&TokenKind::Dedent) || self.is_at_end() {
                break;
            }
            guard = guard - 1;
            self.skip_newlines();
            if self.check(&TokenKind::Dedent) {
                break;
            }

            if self.check(&TokenKind::Fn) {
                let m = self.parse_method(f)?;
                methods.push(m);
            } else {
                let span = self.peek_span();
                let name = self.parse_identifier()?;
                self.expect(&TokenKind::Colon, "expected ':' after field name")?;
                let ty = self.parse_type(f)?;

                fields.push(Field { name, ty, span: span.merge(self.previous_span()) });
            }

            self.skip_newlines();
        }

        self.match_token(&TokenKind::Dedent);

        Ok((fields, methods))
    }

    /// Parses a method declaration inside a struct or impl.
    fn parse_method(&mut self, fuel: u64) -> (r: Result<MethodDecl, ()>)
        requires
            old(self).wf(),
        ensures
            final(self).wf(),
            final(self).tokens == old(self).tokens,
        decreases fuel,
    {
        if fuel == 0 {
            self.error_at_current("statement nesting too deep");
            return Err(());
        }
        let f = fuel - 1;
        let start_span = self.peek_span();
        let is_pub = false;

        self.advance();

        let name = self.parse_identifier()?;

        self.expect(&TokenKind::LParen, "expected '(' after method name")?;

        let receiver = self.parse_method_receiver()?;

        let mut params: Vec<Param> = Vec::new();
        if !matches!(receiver, MethodReceiver::Value) || self.check(&TokenKind::Comma) {
            if self.match_token(&TokenKind::Comma) || matches!(receiver, MethodReceiver::Value) {
                if !self.check(&TokenKind::RParen) {
                    params = self.parse_param_list(f)?;
                }
            }
        }

        self.expect(&TokenKind::RParen, "expected ')' after parameters")?;

        let return_type: Option<Type> = if self.match_token(&TokenKind::Arrow) {
            Some(self.parse_type(f)?)
        } else {
            None
        };

        let is_async = self.match_token(&TokenKind::Async);

        self.expect(&TokenKind::Colon, "expected ':' after method signature")?;
        self.expect_newline()?;

        let body = self.parse_block(f)?;

        let span = start_span.merge(self.previous_span());

        Ok(MethodDecl { name, params, return_type, is_async, is_pub, receiver, body, span })
    }

    /// Parses a method receiver: `self`, `&self`, or `&mut self`; a method
    /// with no receiver is treated as taking `&self`.
    fn parse_method_receiver(&mut self) -> (r: Result<MethodReceiver, ()>)
        requires
            old(self).wf(),
        ensures
            final(self).wf(),
            final(self).tokens == old(self).tokens,
    {
        if self.match_token(&TokenKind::AmpersandMut) {
            match self.peek_ident() {
                Some(name) => {
                    if string_is(&name, "self") {
                        self.advance();
                        return Ok(MethodReceiver::MutRef);
                    }
                },
                None => {},
            }
            self.error_at_current("expected 'self' after '&mut'");
            return Err(());
        }

        if self.match_token(&TokenKind::Ampersand) {
            match self.peek_ident() {
                Some(name) => {
                    if string_is(&name, "self") {
                        self.advance();
                        return Ok(MethodReceiver::Ref);
                    }
                },
                None => {},
            }
            self.error_at_current("expected 'self' after '&'");
            return Err(());
        }

        match self.peek_ident() {
            Some(name) => {
                if string_is(&name, "self") {
                    self.advance();
                    return Ok(MethodReceiver::Value);
                }
            },
            None => {},
        }

        Ok(MethodReceiver::Ref)
    }

    /// Parses an HTTP method keyword.
    fn parse_http_method(&mut self) -> (r: Result<HttpMethod, ()>)
        requires
            old(self).wf(),
        ensures
            final(self).wf(),
            final(self).tokens == old(self).tokens,
    {
        let method: Option<HttpMethod> = match &self.peek().kind {
            TokenKind::Get => Some(HttpMethod::Get),
            TokenKind::Post => Some(HttpMethod::Post),
            TokenKind::Put => Some(HttpMethod::Put),
            TokenKind::Delete => Some(HttpMethod::Delete),
            TokenKind::Patch => Some(HttpMethod::Patch),
            _ => None,
        };
        match method {
            Some(m) => {
                self.advance();
                Ok(m)
            },
            None => {
                self.error_at_current("HTTP method expected (GET, POST, PUT, DELETE, PATCH)");
                Err(())
            },
        }
    }

    /// Parses a route path pattern such as `/users/{id:int}`.
    fn parse_path_pattern(&mut self) -> (r: Result<String, ()>)
        requires
            old(self).wf(),
        ensures
            final(self).wf(),
            final(self).tokens == old(self).tokens,
    {
        let mut path = String::new();

        if !self.match_token(&TokenKind::Slash) {
            self.error_at_current("path must start with '/'");
            return Err(());
        }
        crate::text::push_char(&mut path, '/');

        let mut guard: usize = self.tokens.len();
        loop
            invariant
                self.wf(),
                self.tokens == old(self).tokens,
            decreases guard,
        {
            if guard == 0 {
                break;
            }
            guard = guard - 1;

            match &self.peek().kind {
                TokenKind::Ident(segment) => {
                    let seg = segment.clone();
                    crate::text::push_str(&mut path, seg.as_str());
                    self.advance();
                },
                TokenKind::LBrace => {
                    self.advance();
                    crate::text::push_char(&mut path, '{');

                    match self.peek_ident() {
                        Some(param) => {
                            crate::text::push_str(&mut path, param.as_str());
                            self.advance();
                        },
                        None => {},
                    }

                    if self.match_token(&TokenKind::Colon) {
                        crate::text::push_char(&mut path, ':');
                        match &self.peek().kind {
                            TokenKind::IntType => {
                                crate::text::push_str(&mut path, "int");
                                self.advance();
                            },
                            TokenKind::StringType => {
                                crate::text::push_str(&mut path, "string");
                                self.advance();
                            },
                            TokenKind::Ident(t) => {
                                let ts = t.clone();
                                crate::text::push_str(&mut path, ts.as_str());
                                self.advance();
                            },
                            _ => {},
                        }
                    }

                    self.expect(&TokenKind::RBrace, "expected '}'")?;
                    crate::text::push_char(&mut path, '}');
                },
                TokenKind::Slash => {
                    self.advance();
                    crate::text::push_char(&mut path, '/');
                },
                _ => {
                    break;
                },
            }
        }

        Ok(path)
    }

    /// Parses a database kind: postgres, mysql or sqlite.
    fn parse_db_type(&mut self) -> (r: Result<DbType, ()>)
        requires
            old(self).wf(),
        ensures
            final(self).wf(),
            final(self).tokens == old(self).tokens,
    {
        match self.peek_ident() {
            Some(name) => {
                let db_type: Option<DbType> = if string_is(&name, "postgres") {
                    Some(DbType::Postgres)
                } else if string_is(&name, "mysql") {
                    Some(DbType::Mysql)
                } else if string_is(&name, "sqlite") {
                    Some(DbType::Sqlite)
                } else {
                    None
                };
                match db_type {
                    Some(d) => {
                        self.advance();
                        Ok(d)
                    },
                    None => {
                        self.error_at_current("database type expected (postgres, mysql, sqlite)");
                        Err(())
                    },
                }
            },
            None => {
                self.error_at_current("database type expected");
                Err(())
            },
        }
    }

    /// Parses a parameter list: `name: type, ...`.
    fn parse_param_list(&mut self, fuel: u64) -> (r: Result<Vec<Param>, ()>)
        requires
            old(self).wf(),
        ensures
            final(self).wf(),
            final(self).tokens == old(self).tokens,
        decreases fuel,
    {
        if fuel == 0 {
            self.error_at_current("statement nesting too deep");
            return Err(());
        }
        let f = fuel - 1;
        let mut params: Vec<Param> = Vec::new();

        if !self.check(&TokenKind::RParen) {
            let mut guard: usize = self.tokens.len();
            loop
                invariant
                    self.wf(),
                    self.tokens == old(self).tokens,
                    f < fuel,
                decreases guard,
            {
                if guard == 0 {
                    break;
                }
                guard = guard - 1;

                let span = self.peek_span();
                let name = self.parse_identifier()?;
                self.expect(&TokenKind::Colon, "expected ':' after parameter name")?;
                let ty = self.parse_type(f)?;

                params.push(Param { name, ty, span: span.merge(self.previous_span()) });

                if !self.match_token(&TokenKind::Comma) {
                    break;
                }
            }
        }

        Ok(params)
    }
}


impl Parser {
    /// Parses an API body: directives (`use`, `body`, a `return` type), then
    /// the handler statements.
    fn parse_api_body(&mut self, fuel: u64) -> (r: Result<
        (Vec<String>, Option<Type>, Option<Type>, Vec<Stmt>),
        (),
    >)
        requires
            old(self).wf(),
        ensures
            final(self).wf(),
            final(self).tokens == old(self).tokens,
        decreases fuel,
    {
        if fuel == 0 {
            self.error_at_current("statement nesting too deep");
            return Err(());
        }
        let f = fuel - 1;
        self.expect(&TokenKind::Indent, "expected indented block")?;

        let mut middlewares: Vec<String> = Vec::new();
        let mut body_type: Option<Type> = None;
        let mut return_type: Option<Type> = None;
        let mut handler: Vec<Stmt> = Vec::new();
        let mut parsing_directives = true;

        let mut guard: usize = self.tokens.len();
        loop
            invariant
                self.wf(),
                self.tokens == old(self).tokens,
                f < fuel,
            decreases guard,
        {
            if guard == 0 || self.check(&TokenKind::Dedent) || self.is_at_end() {
                break;
            }
            guard = guard - 1;
            self.skip_newlines();
            if self.check(&TokenKind::Dedent) {
                break;
            }

            if parsing_directives {
                if self.check(&TokenKind::Use) {
                    self.advance();
                    let name = self.parse_identifier()?;
                    middlewares.push(name);
                    self.skip_newlines();
                    continue;
                }
                if self.check(&TokenKind::Body) && body_type.is_none() {
                    self.advance();
                    body_type = Some(self.parse_type(f)?);
                    self.skip_newlines();
                    continue;
                }
                if self.check(&TokenKind::Return) && return_type.is_none() && handler.len() == 0 {
                    self.advance();

                    // A directive when what follows reads as a type.
                    let is_type_decl = match &self.peek().kind {
                        TokenKind::IntType | TokenKind::FloatType | TokenKind::BoolType
                            | TokenKind::StringType | TokenKind::ResultType
                            | TokenKind::OptionType => true,
                        TokenKind::Ident(name) => starts_uppercase(name),
                        TokenKind::LBracket | TokenKind::Ampersand | TokenKind::AmpersandMut
                            => true,
                        _ => false,
                    };

                    if is_type_decl {
                        return_type = Some(self.parse_type(f)?);
                        self.skip_newlines();
                        continue;
                    } else {
                        parsing_directives = false;
                        let value: Option<Expr> = if !self.check(&TokenKind::Newline)
                            && !self.check(&TokenKind::Dedent) {
                            Some(self.parse_expression(f)?)
                        } else {
                            None
                        };
                        let span = self.previous_span();
                        self.skip_newlines();
                        handler.push(Stmt::Return { value, span });
                        continue;
                    }
                }
                parsing_directives = false;
            }

            match self.parse_statement(f) {
                Ok(stmt) => handler.push(stmt),
                Err(_) => self.synchronize(),
            }
        }

        self.match_token(&TokenKind::Dedent);

        Ok((middlewares, body_type, return_type, handler))
    }

    /// Parses a match expression.
    fn parse_match_expr(&mut self, fuel: u64) -> (r: Result<Expr, ()>)
        requires
            old(self).wf(),
        ensures
            final(self).wf(),
            final(self).tokens == old(self).tokens,
        decreases fuel,
    {
        if fuel == 0 {
            self.error_at_current("expression nesting too deep");
            return Err(());
        }
        let f = fuel - 1;
        let start_span = self.peek_span();
        self.advance();

        let expr = self.parse_expression(f)?;

        self.expect(&TokenKind::Colon, "expected ':' after match expression")?;
        self.expect_newline()?;

        let arms = self.parse_match_arms(f)?;

        let span = start_span.merge(self.previous_span());

        Ok(Expr::Match { expr: Box::new(expr), arms, span })
    }

    /// Parses the arms of a match body.
    fn parse_match_arms(&mut self, fuel: u64) -> (r: Result<Vec<MatchArm>, ()>)
        requires
            old(self).wf(),
        ensures
            final(self).wf(),
            final(self).tokens == old(self).tokens,
        decreases fuel,
    {
        if fuel == 0 {
            self.error_at_current("expression nesting too deep");
            return Err(());
        }
        let f = fuel - 1;
        self.expect(&TokenKind::Indent, "expected indented block for match")?;

        let mut arms: Vec<MatchArm> = Vec::new();

        let mut guard: usize = self.tokens.len();
        loop
            invariant
                self.wf(),
                self.tokens == old(self).tokens,
                f < fuel,
            decreases guard,
        {
            if guard == 0 || self.check(&TokenKind::Dedent) || self.is_at_end() {
                break;
            }
            guard = guard - 1;
            self.skip_newlines();
            if self.check(&TokenKind::Dedent) {
                break;
            }

            let arm_span = self.peek_span();
            let pattern = self.parse_pattern(f)?;

            let pat_guard: Option<Expr> = if self.match_token(&TokenKind::If) {
                Some(self.parse_expression(f)?)
            } else {
                None
            };

            self.expect(&TokenKind::Colon, "expected ':' after pattern")?;
            self.expect_newline()?;

            let body = self.parse_block(f)?;

            arms.push(
                MatchArm {
                    pattern,
                    guard: pat_guard,
                    body,
                    span: arm_span.merge(self.previous_span()),
                },
            );
        }

        self.match_token(&TokenKind::Dedent);

        Ok(arms)
    }

    /// Parses a pattern.
    fn parse_pattern(&mut self, fuel: u64) -> (r: Result<Pattern, ()>)
        requires
            old(self).wf(),
        ensures
            final(self).wf(),
            final(self).tokens == old(self).tokens,
        decreases fuel,
    {
        if fuel == 0 {
            self.error_at_current("pattern nesting too deep");
            return Err(());
        }
        let f = fuel - 1;
        self.parse_or_pattern(f)
    }

    /// Parses an or-pattern: `A | B | C`.
    fn parse_or_pattern(&mut self, fuel: u64) -> (r: Result<Pattern, ()>)
        requires
            old(self).wf(),
        ensures
            final(self).wf(),
            final(self).tokens == old(self).tokens,
        decreases fuel,
    {
        if fuel == 0 {
            self.error_at_current("pattern nesting too deep");
            return Err(());
        }
        let f = fuel - 1;
        let first = self.parse_primary_pattern(f)?;

        if self.check(&TokenKind::Pipe) {
            let start_span = first.span();
            let mut patterns: Vec<Pattern> = Vec::new();
            patterns.push(first);

            let mut guard: usize = self.tokens.len();
            loop
                invariant
                    self.wf(),
                    self.tokens == old(self).tokens,
                    f < fuel,
                decreases guard,
            {
                if guard == 0 || !self.match_token(&TokenKind::Pipe) {
                    break;
                }
                guard = guard - 1;
                let p = self.parse_primary_pattern(f)?;
                patterns.push(p);
            }

            let end_span = if patterns.len() > 0 {
                patterns[patterns.len() - 1].span()
            } else {
                start_span
            };
            Ok(Pattern::Or(patterns, start_span.merge(end_span)))
        } else {
            Ok(first)
        }
    }

    /// Parses a primary pattern.
    fn parse_primary_pattern(&mut self, fuel: u64) -> (r: Result<Pattern, ()>)
        requires
            old(self).wf(),
        ensures
            final(self).wf(),
            final(self).tokens == old(self).tokens,
        decreases fuel,
    {
        if fuel == 0 {
            self.error_at_current("pattern nesting too deep");
            return Err(());
        }
        let f = fuel - 1;
        let token_span = self.peek_span();

        match &self.peek().kind {
            TokenKind::IntLit(n) => {
                let n = *n;
                self.advance();
                Ok(Pattern::Literal(Expr::IntLit(n, token_span)))
            },
            TokenKind::FloatLit(t) => {
                let t = t.clone();
                self.advance();
                Ok(Pattern::Literal(Expr::FloatLit(t, token_span)))
            },
            TokenKind::StringLit(sv) => {
                let sv = sv.clone();
                self.advance();
                Ok(Pattern::Literal(Expr::StringLit(sv, token_span)))
            },
            TokenKind::True => {
                self.advance();
                Ok(Pattern::Literal(Expr::BoolLit(true, token_span)))
            },
            TokenKind::False => {
                self.advance();
                Ok(Pattern::Literal(Expr::BoolLit(false, token_span)))
            },
            TokenKind::NoneKw => {
                self.advance();
                Ok(
                    Pattern::Variant {
                        enum_name: Some("Option".to_owned()),
                        variant: "None".to_owned(),
                        data: VariantPatternData::Unit,
                        span: token_span,
                    },
                )
            },
            TokenKind::SomeKw => {
                self.advance();
                self.expect(&TokenKind::LParen, "expected '(' after 'Some'")?;
                let inner = self.parse_pattern(f)?;
                self.expect(&TokenKind::RParen, "expected ')'")?;
                let span = token_span.merge(self.previous_span());
                let mut data: Vec<Pattern> = Vec::new();
                data.push(inner);
                Ok(
                    Pattern::Variant {
                        enum_name: Some("Option".to_owned()),
                        variant: "Some".to_owned(),
                        data: VariantPatternData::Tuple(data),
                        span,
                    },
                )
            },
            TokenKind::OkKw => {
                self.advance();
                self.expect(&TokenKind::LParen, "expected '(' after 'Ok'")?;
                let inner = self.parse_pattern(f)?;
                self.expect(&TokenKind::RParen, "expected ')'")?;
                let span = token_span.merge(self.previous_span());
                let mut data: Vec<Pattern> = Vec::new();
                data.push(inner);
                Ok(
                    Pattern::Variant {
                        enum_name: Some("Result".to_owned()),
                        variant: "Ok".to_owned(),
                        data: VariantPatternData::Tuple(data),
                        span,
                    },
                )
            },
            TokenKind::ErrKw => {
                self.advance();
                self.expect(&TokenKind::LParen, "expected '(' after 'Err'")?;
                let inner = self.parse_pattern(f)?;
                self.expect(&TokenKind::RParen, "expected ')'")?;
                let span = token_span.merge(self.previous_span());
                let mut data: Vec<Pattern> = Vec::new();
                data.push(inner);
                Ok(
                    Pattern::Variant {
                        enum_name: Some("Result".to_owned()),
                        variant: "Err".to_owned(),
                        data: VariantPatternData::Tuple(data),
                        span,
                    },
                )
            },
            TokenKind::LParen => {
                self.advance();
                let mut patterns: Vec<Pattern> = Vec::new();
                if !self.check(&TokenKind::RParen) {
                    patterns.push(self.parse_pattern(f)?);
                    let mut guard: usize = self.tokens.len();
                    loop
                        invariant
                            self.wf(),
                            self.tokens == old(self).tokens,
                            f < fuel,
                        decreases guard,
                    {
                        if guard == 0 || !self.match_token(&TokenKind::Comma) {
                            break;
                        }
                        guard = guard - 1;
                        patterns.push(self.parse_pattern(f)?);
                    }
                }
                self.expect(&TokenKind::RParen, "expected ')'")?;
                let span = token_span.merge(self.previous_span());
                Ok(Pattern::Tuple(patterns, span))
            },
            TokenKind::Ident(name) => {
                let name = name.clone();
                self.advance();

                if string_is(&name, "_") {
                    return Ok(Pattern::Wildcard(token_span));
                }

                if self.match_token(&TokenKind::ColonColon) {
                    let variant = self.parse_identifier()?;
                    let data = self.parse_variant_pattern_data(f)?;
                    let span = token_span.merge(self.previous_span());
                    return Ok(
                        Pattern::Variant { enum_name: Some(name), variant, data, span },
                    );
                }

                if self.check(&TokenKind::LBrace) {
                    self.advance();
                    let fields = self.parse_struct_pattern_fields(f)?;
                    self.expect(&TokenKind::RBrace, "expected '}'")?;
                    let span = token_span.merge(self.previous_span());
                    return Ok(Pattern::Struct { name, fields, span });
                }

                if self.check(&TokenKind::LParen) {
                    let data = self.parse_variant_pattern_data(f)?;
                    let span = token_span.merge(self.previous_span());
                    return Ok(
                        Pattern::Variant { enum_name: None, variant: name, data, span },
                    );
                }

                Ok(Pattern::Ident { name, mutable: false, span: token_span })
            },
            TokenKind::Mut => {
                self.advance();
                let name = self.parse_identifier()?;
                let span = token_span.merge(self.previous_span());
                Ok(Pattern::Ident { name, mutable: true, span })
            },
            _ => {
                self.error_at_current("pattern expected");
                Err(())
            },
        }
    }

    /// Parses the data of a variant pattern: tuple, struct, or unit.
    fn parse_variant_pattern_data(&mut self, fuel: u64) -> (r: Result<VariantPatternData, ()>)
        requires
            old(self).wf(),
        ensures
            final(self).wf(),
            final(self).tokens == old(self).tokens,
        decreases fuel,
    {
        if fuel == 0 {
            self.error_at_current("pattern nesting too deep");
            return Err(());
        }
        let f = fuel - 1;
        if self.match_token(&TokenKind::LParen) {
            let mut patterns: Vec<Pattern> = Vec::new();
            if !self.check(&TokenKind::RParen) {
                patterns.push(self.parse_pattern(f)?);
                let mut guard: usize = self.tokens.len();
                loop
                    invariant
                        self.wf(),
                        self.tokens == old(self).tokens,
                        f < fuel,
                    decreases guard,
                {
                    if guard == 0 || !self.match_token(&TokenKind::Comma) {
                        break;
                    }
                    guard = guard - 1;
                    patterns.push(self.parse_pattern(f)?);
                }
            }
            self.expect(&TokenKind::RParen, "expected ')'")?;
            Ok(VariantPatternData::Tuple(patterns))
        } else if self.match_token(&TokenKind::LBrace) {
            let fields = self.parse_struct_pattern_fields(f)?;
            self.expect(&TokenKind::RBrace, "expected '}'")?;
            Ok(VariantPatternData::Struct(fields))
        } else {
            Ok(VariantPatternData::Unit)
        }
    }

    /// Parses struct pattern fields: `{ x, y: pattern, ... }`.
    fn parse_struct_pattern_fields(&mut self, fuel: u64) -> (r: Result<
        Vec<(String, Option<Pattern>)>,
        (),
    >)
        requires
            old(self).wf(),
        ensures
            final(self).wf(),
            final(self).tokens == old(self).tokens,
        decreases fuel,
    {
        if fuel == 0 {
            self.error_at_current("pattern nesting too deep");
            return Err(());
        }
        let f = fuel - 1;
        let mut fields: Vec<(String, Option<Pattern>)> = Vec::new();

        if !self.check(&TokenKind::RBrace) {
            let mut guard: usize = self.tokens.len();
            loop
                invariant
                    self.wf(),
                    self.tokens == old(self).tokens,
                    f < fuel,
                decreases guard,
            {
                if guard == 0 {
                    break;
                }
                guard = guard - 1;

                let field_name = self.parse_identifier()?;

                let pattern: Option<Pattern> = if self.match_token(&TokenKind::Colon) {
                    Some(self.parse_pattern(f)?)
                } else {
                    None
                };

                fields.push((field_name, pattern));

                if !self.match_token(&TokenKind::Comma) {
                    break;
                }
            }
        }

        Ok(fields)
    }

    /// Parses an expression.
    fn parse_expression(&mut self, fuel: u64) -> (r: Result<Expr, ()>)
        requires
            old(self).wf(),
        ensures
            final(self).wf(),
            final(self).tokens == old(self).tokens,
        decreases fuel,
    {
        if fuel == 0 {
            self.error_at_current("expression nesting too deep");
            return Err(());
        }
        let f = fuel - 1;
        self.parse_assignment(f)
    }

    /// Parses an assignment or compound assignment.
    fn parse_assignment(&mut self, fuel: u64) -> (r: Result<Expr, ()>)
        requires
            old(self).wf(),
        ensures
            final(self).wf(),
            final(self).tokens == old(self).tokens,
        decreases fuel,
    {
        if fuel == 0 {
            self.error_at_current("expression nesting too deep");
            return Err(());
        }
        let f = fuel - 1;
        let expr = self.parse_range(f)?;

        let op: Option<BinOp> = if self.check(&TokenKind::Eq) {
            Some(BinOp::Assign)
        } else if self.check(&TokenKind::PlusEq) {
            Some(BinOp::AddAssign)
        } else if self.check(&TokenKind::MinusEq) {
            Some(BinOp::SubAssign)
        } else if self.check(&TokenKind::StarEq) {
            Some(BinOp::MulAssign)
        } else if self.check(&TokenKind::SlashEq) {
            Some(BinOp::DivAssign)
        } else {
            None
        };

        match op {
            Some(op) => {
                self.advance();
                let value = self.parse_assignment(f)?;
                let span = expr.span().merge(value.span());
                Ok(
                    Expr::Binary {
                        left: Box::new(expr),
                        op,
                        right: Box::new(value),
                        span,
                    },
                )
            },
            None => Ok(expr),
        }
    }

    /// Parses a range expression: `start..end` or `start..=end`.
    fn parse_range(&mut self, fuel: u64) -> (r: Result<Expr, ()>)
        requires
            old(self).wf(),
        ensures
            final(self).wf(),
            final(self).tokens == old(self).tokens,
        decreases fuel,
    {
        if fuel == 0 {
            self.error_at_current("expression nesting too deep");
            return Err(());
        }
        let f = fuel - 1;
        let start_span = self.peek_span();

        if self.check(&TokenKind::DotDot) || self.check(&TokenKind::DotDotEq) {
            let inclusive = self.check(&TokenKind::DotDotEq);
            self.advance();

            let end: Option<Box<Expr>> = if self.range_end_missing() {
                None
            } else {
                Some(Box::new(self.parse_or(f)?))
            };

            let span = start_span.merge(self.previous_span());
            return Ok(Expr::Range { start: None, end, inclusive, span });
        }

        let left = self.parse_or(f)?;

        if self.check(&TokenKind::DotDot) || self.check(&TokenKind::DotDotEq) {
            let inclusive = self.check(&TokenKind::DotDotEq);
            self.advance();

            let end: Option<Box<Expr>> = if self.range_end_missing() {
                None
            } else {
                Some(Box::new(self.parse_or(f)?))
            };

            let span = left.span().merge(self.previous_span());
            return Ok(Expr::Range { start: Some(Box::new(left)), end, inclusive, span });
        }

        Ok(left)
    }

    /// Whether the token after a range operator ends the range.
    fn range_end_missing(&self) -> (r: bool)
        requires
            self.wf(),
    {
        self.check(&TokenKind::Newline) || self.check(&TokenKind::Dedent) || self.check(
            &TokenKind::Colon,
        ) || self.check(&TokenKind::RParen) || self.check(&TokenKind::RBracket) || self.check(
            &TokenKind::Comma,
        )
    }

    /// Parses a logical-or chain.
    fn parse_or(&mut self, fuel: u64) -> (r: Result<Expr, ()>)
        requires
            old(self).wf(),
        ensures
            final(self).wf(),
            final(self).tokens == old(self).tokens,
        decreases fuel,
    {
        if fuel == 0 {
            self.error_at_current("expression nesting too deep");
            return Err(());
        }
        let f = fuel - 1;
        let mut left = self.parse_and(f)?;

        let mut guard: usize = self.tokens.len();
        loop
            invariant
                self.wf(),
                self.tokens == old(self).tokens,
                f < fuel,
            decreases guard,
        {
            if guard == 0 || !self.match_token(&TokenKind::Or) {
                break;
            }
            guard = guard - 1;
            let right = self.parse_and(f)?;
            let span = left.span().merge(right.span());
            left = Expr::Binary {
                left: Box::new(left),
                op: BinOp::Or,
                right: Box::new(right),
                span,
            };
        }

        Ok(left)
    }

    /// Parses a logical-and chain.
    fn parse_and(&mut self, fuel: u64) -> (r: Result<Expr, ()>)
        requires
            old(self).wf(),
        ensures
            final(self).wf(),
            final(self).tokens == old(self).tokens,
        decreases fuel,
    {
        if fuel == 0 {
            self.error_at_current("expression nesting too deep");
            return Err(());
        }
        let f = fuel - 1;
        let mut left = self.parse_not(f)?;

        let mut guard: usize = self.tokens.len();
        loop
            invariant
                self.wf(),
                self.tokens == old(self).tokens,
                f < fuel,
            decreases guard,
        {
            if guard == 0 || !self.match_token(&TokenKind::And) {
                break;
            }
            guard = guard - 1;
            let right = self.parse_not(f)?;
            let span = left.span().merge(right.span());
            left = Expr::Binary {
                left: Box::new(left),
                op: BinOp::And,
                right: Box::new(right),
                span,
            };
        }

        Ok(left)
    }

    /// Parses a logical negation.
    fn parse_not(&mut self, fuel: u64) -> (r: Result<Expr, ()>)
        requires
            old(self).wf(),
        ensures
            final(self).wf(),
            final(self).tokens == old(self).tokens,
        decreases fuel,
    {
        if fuel == 0 {
            self.error_at_current("expression nesting too deep");
            return Err(());
        }
        let f = fuel - 1;
        if self.match_token(&TokenKind::Not) {
            let start_span = self.previous_span();
            let expr = self.parse_not(f)?;
            let span = start_span.merge(expr.span());
            return Ok(Expr::Unary { op: UnaryOp::Not, expr: Box::new(expr), span });
        }

        self.parse_comparison(f)
    }

    /// Parses a comparison chain.
    fn parse_comparison(&mut self, fuel: u64) -> (r: Result<Expr, ()>)
        requires
            old(self).wf(),
        ensures
            final(self).wf(),
            final(self).tokens == old(self).tokens,
        decreases fuel,
    {
        if fuel == 0 {
            self.error_at_current("expression nesting too deep");
            return Err(());
        }
        let f = fuel - 1;
        let mut left = self.parse_additive(f)?;

        let mut guard: usize = self.tokens.len();
        loop
            invariant
                self.wf(),
                self.tokens == old(self).tokens,
                f < fuel,
            decreases guard,
        {
            if guard == 0 {
                break;
            }
            guard = guard - 1;

            let op: Option<BinOp> = if self.check(&TokenKind::EqEq) {
                Some(BinOp::Eq)
            } else if self.check(&TokenKind::Ne) {
                Some(BinOp::Ne)
            } else if self.check(&TokenKind::Lt) {
                Some(BinOp::Lt)
            } else if self.check(&TokenKind::Le) {
                Some(BinOp::Le)
            } else if self.check(&TokenKind::Gt) {
                Some(BinOp::Gt)
            } else if self.check(&TokenKind::Ge) {
                Some(BinOp::Ge)
            } else if self.check(&TokenKind::Is) {
                // `is` compares like equality.
                Some(BinOp::Eq)
            } else {
                None
            };

            match op {
                Some(op) => {
                    self.advance();
                    let right = self.parse_additive(f)?;
                    let span = left.span().merge(right.span());
                    left = Expr::Binary {
                        left: Box::new(left),
                        op,
                        right: Box::new(right),
                        span,
                    };
                },
                None => {
                    break;
                },
            }
        }

        Ok(left)
    }

    /// Parses addition and subtraction.
    fn parse_additive(&mut self, fuel: u64) -> (r: Result<Expr, ()>)
        requires
            old(self).wf(),
        ensures
            final(self).wf(),
            final(self).tokens == old(self).tokens,
        decreases fuel,
    {
        if fuel == 0 {
            self.error_at_current("expression nesting too deep");
            return Err(());
        }
        let f = fuel - 1;
        let mut left = self.parse_multiplicative(f)?;

        let mut guard: usize = self.tokens.len();
        loop
            invariant
                self.wf(),
                self.tokens == old(self).tokens,
                f < fuel,
            decreases guard,
        {
            if guard == 0 {
                break;
            }
            guard = guard - 1;

            let op: Option<BinOp> = if self.check(&TokenKind::Plus) {
                Some(BinOp::Add)
            } else if self.check(&TokenKind::Minus) {
                Some(BinOp::Sub)
            } else {
                None
            };

            match op {
                Some(op) => {
                    self.advance();
                    let right = self.parse_multiplicative(f)?;
                    let span = left.span().merge(right.span());
                    left = Expr::Binary {
                        left: Box::new(left),
                        op,
                        right: Box::new(right),
                        span,
                    };
                },
                None => {
                    break;
                },
            }
        }

        Ok(left)
    }

    /// Parses multiplication, division and remainder.
    fn parse_multiplicative(&mut self, fuel: u64) -> (r: Result<Expr, ()>)
        requires
            old(self).wf(),
        ensures
            final(self).wf(),
            final(self).tokens == old(self).tokens,
        decreases fuel,
    {
        if fuel == 0 {
            self.error_at_current("expression nesting too deep");
            return Err(());
        }
        let f = fuel - 1;
        let mut left = self.parse_unary(f)?;

        let mut guard: usize = self.tokens.len();
        loop
            invariant
                self.wf(),
                self.tokens == old(self).tokens,
                f < fuel,
            decreases guard,
        {
            if guard == 0 {
                break;
            }
            guard = guard - 1;

            let op: Option<BinOp> = if self.check(&TokenKind::Star) {
                Some(BinOp::Mul)
            } else if self.check(&TokenKind::Slash) {
                Some(BinOp::Div)
            } else if self.check(&TokenKind::Percent) {
                Some(BinOp::Mod)
            } else {
                None
            };

            match op {
                Some(op) => {
                    self.advance();
                    let right = self.parse_unary(f)?;
                    let span = left.span().merge(right.span());
                    left = Expr::Binary {
                        left: Box::new(left),
                        op,
                        right: Box::new(right),
                        span,
                    };
                },
                None => {
                    break;
                },
            }
        }

        Ok(left)
    }

    /// Parses a unary negation or borrow.
    fn parse_unary(&mut self, fuel: u64) -> (r: Result<Expr, ()>)
        requires
            old(self).wf(),
        ensures
            final(self).wf(),
            final(self).tokens == old(self).tokens,
        decreases fuel,
    {
        if fuel == 0 {
            self.error_at_current("expression nesting too deep");
            return Err(());
        }
        let f = fuel - 1;
        if self.match_token(&TokenKind::Minus) {
            let start_span = self.previous_span();
            let expr = self.parse_unary(f)?;
            let span = start_span.merge(expr.span());
            return Ok(Expr::Unary { op: UnaryOp::Neg, expr: Box::new(expr), span });
        }

        if self.match_token(&TokenKind::Ampersand) {
            let start_span = self.previous_span();
            let expr = self.parse_unary(f)?;
            let span = start_span.merge(expr.span());
            return Ok(Expr::Borrow { expr: Box::new(expr), mutable: false, span });
        }

        if self.match_token(&TokenKind::AmpersandMut) {
            let start_span = self.previous_span();
            let expr = self.parse_unary(f)?;
            let span = start_span.merge(expr.span());
            return Ok(Expr::Borrow { expr: Box::new(expr), mutable: true, span });
        }

        self.parse_await(f)
    }

    /// Parses an await prefix.
    fn parse_await(&mut self, fuel: u64) -> (r: Result<Expr, ()>)
        requires
            old(self).wf(),
        ensures
            final(self).wf(),
            final(self).tokens == old(self).tokens,
        decreases fuel,
    {
        if fuel == 0 {
            self.error_at_current("expression nesting too deep");
            return Err(());
        }
        let f = fuel - 1;
        if self.match_token(&TokenKind::Await) {
            let start_span = self.previous_span();
            let expr = self.parse_await(f)?;
            let span = start_span.merge(expr.span());
            return Ok(Expr::Await { expr: Box::new(expr), span });
        }

        self.parse_postfix(f)
    }

    /// Parses postfix forms: calls, field accesses, indexing, and the try
    /// operator.
    fn parse_postfix(&mut self, fuel: u64) -> (r: Result<Expr, ()>)
        requires
            old(self).wf(),
        ensures
            final(self).wf(),
            final(self).tokens == old(self).tokens,
        decreases fuel,
    {
        if fuel == 0 {
            self.error_at_current("expression nesting too deep");
            return Err(());
        }
        let f = fuel - 1;
        let mut expr = self.parse_primary(f)?;

        let mut guard: usize = self.tokens.len();
        loop
            invariant
                self.wf(),
                self.tokens == old(self).tokens,
                f < fuel,
            decreases guard,
        {
            if guard == 0 {
                break;
            }
            guard = guard - 1;

            if self.match_token(&TokenKind::Dot) {
                let field = self.parse_field_name()?;

                if self.match_token(&TokenKind::LParen) {
                    let args = self.parse_arg_list(f)?;
                    self.expect(&TokenKind::RParen, "expected ')' after arguments")?;

                    let span = expr.span().merge(self.previous_span());
                    expr = Expr::MethodCall { object: Box::new(expr), method: field, args, span };
                } else {
                    let span = expr.span().merge(self.previous_span());
                    expr = Expr::FieldAccess { object: Box::new(expr), field, span };
                }
            } else if self.match_token(&TokenKind::LParen) {
                let args = self.parse_arg_list(f)?;
                self.expect(&TokenKind::RParen, "expected ')' after arguments")?;

                let span = expr.span().merge(self.previous_span());
                expr = Expr::Call { func: Box::new(expr), args, span };
            } else if self.match_token(&TokenKind::LBracket) {
                let index = self.parse_expression(f)?;
                self.expect(&TokenKind::RBracket, "expected ']' after index")?;

                let span = expr.span().merge(self.previous_span());
                expr = Expr::Index { object: Box::new(expr), index: Box::new(index), span };
            } else if self.match_token(&TokenKind::Question) {
                let span = expr.span().merge(self.previous_span());
                expr = Expr::Try { expr: Box::new(expr), span };
            } else {
                break;
            }
        }

        Ok(expr)
    }

    /// Parses a field or method name; several keywords may stand as names.
    fn parse_field_name(&mut self) -> (r: Result<String, ()>)
        requires
            old(self).wf(),
        ensures
            final(self).wf(),
            final(self).tokens == old(self).tokens,
    {
        let name: Option<String> = match &self.peek().kind {
            TokenKind::Ident(name) => Some(name.clone()),
            TokenKind::Header => Some("header".to_owned()),
            TokenKind::Query => Some("query".to_owned()),
            TokenKind::Body => Some("body".to_owned()),
            TokenKind::Transaction => Some("transaction".to_owned()),
            TokenKind::Get => Some("get".to_owned()),
            TokenKind::Post => Some("post".to_owned()),
            TokenKind::Put => Some("put".to_owned()),
            TokenKind::Delete => Some("delete".to_owned()),
            TokenKind::Return => Some("return".to_owned()),
            TokenKind::Async => Some("async".to_owned()),
            TokenKind::Await => Some("await".to_owned()),
            TokenKind::Use => Some("use".to_owned()),
            TokenKind::OkKw => Some("ok".to_owned()),
            TokenKind::ErrKw => Some("err".to_owned()),
            TokenKind::SomeKw => Some("some".to_owned()),
            TokenKind::NoneKw => Some("none".to_owned()),
            _ => None,
        };
        match name {
            Some(n) => {
                self.advance();
                Ok(n)
            },
            None => {
                self.error_at_current("field name expected");
                Err(())
            },
        }
    }

    /// Parses a primary expression.
    fn parse_primary(&mut self, fuel: u64) -> (r: Result<Expr, ()>)
        requires
            old(self).wf(),
        ensures
            final(self).wf(),
            final(self).tokens == old(self).tokens,
        decreases fuel,
    {
        if fuel == 0 {
            self.error_at_current("expression nesting too deep");
            return Err(());
        }
        let f = fuel - 1;
        let token_span = self.peek_span();

        match &self.peek().kind {
            TokenKind::IntLit(n) => {
                let n = *n;
                self.advance();
                Ok(Expr::IntLit(n, token_span))
            },
            TokenKind::FloatLit(t) => {
                let t = t.clone();
                self.advance();
                Ok(Expr::FloatLit(t, token_span))
            },
            TokenKind::StringLit(sv) => {
                let sv = sv.clone();
                self.advance();
                Ok(Expr::StringLit(sv, token_span))
            },
            TokenKind::InterpolatedString(raw_parts) => {
                let raw_parts = raw_parts.clone();
                self.advance();
                self.parse_interpolation(raw_parts, token_span, f)
            },
            TokenKind::True => {
                self.advance();
                Ok(Expr::BoolLit(true, token_span))
            },
            TokenKind::False => {
                self.advance();
                Ok(Expr::BoolLit(false, token_span))
            },
            TokenKind::NoneKw => {
                self.advance();
                Ok(Expr::OptionNone(token_span))
            },
            TokenKind::OkKw => {
                self.advance();
                self.expect(&TokenKind::LParen, "expected '(' after 'Ok'")?;
                let expr = self.parse_expression(f)?;
                self.expect(&TokenKind::RParen, "expected ')'")?;
                let span = token_span.merge(self.previous_span());
                Ok(Expr::ResultOk(Box::new(expr), span))
            },
            TokenKind::ErrKw => {
                self.advance();
                self.expect(&TokenKind::LParen, "expected '(' after 'Err'")?;
                let expr = self.parse_expression(f)?;
                self.expect(&TokenKind::RParen, "expected ')'")?;
                let span = token_span.merge(self.previous_span());
                Ok(Expr::ResultErr(Box::new(expr), span))
            },
            TokenKind::SomeKw => {
                self.advance();
                self.expect(&TokenKind::LParen, "expected '(' after 'Some'")?;
                let expr = self.parse_expression(f)?;
                self.expect(&TokenKind::RParen, "expected ')'")?;
                let span = token_span.merge(self.previous_span());
                Ok(Expr::OptionSome(Box::new(expr), span))
            },
            TokenKind::LParen => {
                self.advance();

                if self.check(&TokenKind::RParen) {
                    self.advance();
                    let span = token_span.merge(self.previous_span());
                    return Ok(Expr::Tuple { elements: Vec::new(), span });
                }

                let first = self.parse_expression(f)?;

                if self.match_token(&TokenKind::Comma) {
                    let mut elements: Vec<Expr> = Vec::new();
                    elements.push(first);

                    if !self.check(&TokenKind::RParen) {
                        elements.push(self.parse_expression(f)?);
                        let mut guard: usize = self.tokens.len();
                        loop
                            invariant
                                self.wf(),
                                self.tokens == old(self).tokens,
                                f < fuel,
                            decreases guard,
                        {
                            if guard == 0 || !self.match_token(&TokenKind::Comma) {
                                break;
                            }
                            guard = guard - 1;
                            if self.check(&TokenKind::RParen) {
                                break;
                            }
                            elements.push(self.parse_expression(f)?);
                        }
                    }

                    self.expect(&TokenKind::RParen, "expected ')'")?;
                    let span = token_span.merge(self.previous_span());
                    Ok(Expr::Tuple { elements, span })
                } else {
                    self.expect(&TokenKind::RParen, "expected ')'")?;
                    Ok(first)
                }
            },
            TokenKind::LBracket => {
                self.advance();
                let mut elements: Vec<Expr> = Vec::new();
                if !self.check(&TokenKind::RBracket) {
                    elements.push(self.parse_expression(f)?);
                    let mut guard: usize = self.tokens.len();
                    loop
                        invariant
                            self.wf(),
                            self.tokens == old(self).tokens,
                            f < fuel,
                        decreases guard,
                    {
                        if guard == 0 || !self.match_token(&TokenKind::Comma) {
                            break;
                        }
                        guard = guard - 1;
                        elements.push(self.parse_expression(f)?);
                    }
                }
                self.expect(&TokenKind::RBracket, "expected ']'")?;
                let span = token_span.merge(self.previous_span());
                Ok(Expr::ArrayLit(elements, span))
            },
            TokenKind::Ident(name) => {
                let name = name.clone();
                self.advance();

                if self.check(&TokenKind::LBrace) {
                    self.advance();
                    let mut fields: Vec<(String, Expr)> = Vec::new();

                    if !self.check(&TokenKind::RBrace) {
                        let mut guard: usize = self.tokens.len();
                        loop
                            invariant
                                self.wf(),
                                self.tokens == old(self).tokens,
                                f < fuel,
                            decreases guard,
                        {
                            if guard == 0 {
                                break;
                            }
                            guard = guard - 1;

                            let field_name = self.parse_identifier()?;
                            self.expect(&TokenKind::Colon, "expected ':' after field name")?;
                            let value = self.parse_expression(f)?;
                            fields.push((field_name, value));

                            if !self.match_token(&TokenKind::Comma) {
                                break;
                            }
                        }
                    }

                    self.expect(&TokenKind::RBrace, "expected '}'")?;
                    let span = token_span.merge(self.previous_span());
                    return Ok(Expr::StructLit { name, fields, span });
                }

                Ok(Expr::Ident(name, token_span))
            },
            TokenKind::Db => {
                self.advance();
                Ok(Expr::Ident("db".to_owned(), token_span))
            },
            TokenKind::Body => {
                self.advance();
                Ok(Expr::Ident("body".to_owned(), token_span))
            },
            TokenKind::Match => self.parse_match_expr(f),
            TokenKind::Pipe => self.parse_closure(f),
            _ => {
                self.error_at_current("expression expected");
                Err(())
            },
        }
    }

    /// Parses the expression parts of an interpolated string by lexing and
    /// parsing each brace-delimited piece.
    fn parse_interpolation(
        &mut self,
        raw_parts: Vec<(String, String)>,
        token_span: Span,
        fuel: u64,
    ) -> (r: Result<Expr, ()>)
        requires
            old(self).wf(),
        ensures
            final(self).wf(),
            final(self).tokens == old(self).tokens,
        decreases fuel,
    {
        if fuel == 0 {
            self.error_at_current("expression nesting too deep");
            return Err(());
        }
        let f = fuel - 1;
        let mut parts: Vec<crate::ast::StringPart> = Vec::new();

        let mut i: usize = 0;
        while i < raw_parts.len()
            invariant
                self.wf(),
                self.tokens == old(self).tokens,
                i <= raw_parts@.len(),
                f < fuel,
            decreases raw_parts@.len() - i,
        {
            let lit = raw_parts[i].0.clone();
            let expr_str = raw_parts[i].1.clone();

            if !lit.as_str().is_empty() {
                parts.push(crate::ast::StringPart::Literal(lit));
            }

            if !expr_str.as_str().is_empty() {
                let mut expr_lexer = crate::lexer::Lexer::new(expr_str.as_str(), 0);
                let expr_tokens = expr_lexer.tokenize();

                let mut kept: Vec<Token> = Vec::new();
                let mut j: usize = 0;
                while j < expr_tokens.len()
                    invariant
                        j <= expr_tokens@.len(),
                    decreases expr_tokens@.len() - j,
                {
                    let keep = match &expr_tokens[j].kind {
                        TokenKind::Eof => false,
                        TokenKind::Newline => false,
                        _ => true,
                    };
                    if keep {
                        kept.push(expr_tokens[j].clone());
                    }
                    j = j + 1;
                }

                if kept.len() > 0 {
                    let mut expr_parser = Parser::new(kept);
                    match expr_parser.parse_expression(f) {
                        Ok(expr) => {
                            parts.push(crate::ast::StringPart::Expr(expr));
                        },
                        Err(_) => {
                            let mut t = "{".to_owned();
                            crate::text::push_str(&mut t, expr_str.as_str());
                            crate::text::push_char(&mut t, '}');
                            parts.push(crate::ast::StringPart::Literal(t));
                        },
                    }
                }
            }

            i = i + 1;
        }

        Ok(Expr::StringInterpolation { parts, span: token_span })
    }

    /// Parses a closure expression.
    fn parse_closure(&mut self, fuel: u64) -> (r: Result<Expr, ()>)
        requires
            old(self).wf(),
        ensures
            final(self).wf(),
            final(self).tokens == old(self).tokens,
        decreases fuel,
    {
        if fuel == 0 {
            self.error_at_current("expression nesting too deep");
            return Err(());
        }
        let f = fuel - 1;
        let start_span = self.peek_span();
        self.advance();

        let mut params: Vec<ClosureParam> = Vec::new();
        if !self.check(&TokenKind::Pipe) {
            let mut guard: usize = self.tokens.len();
            loop
                invariant
                    self.wf(),
                    self.tokens == old(self).tokens,
                    f < fuel,
                decreases guard,
            {
                if guard == 0 {
                    break;
                }
                guard = guard - 1;

                let param_span = self.peek_span();
                let name = self.parse_identifier()?;

                let ty: Option<Type> = if self.match_token(&TokenKind::Colon) {
                    Some(self.parse_type(f)?)
                } else {
                    None
                };

                params.push(
                    ClosureParam { name, ty, span: param_span.merge(self.previous_span()) },
                );

                if !self.match_token(&TokenKind::Comma) {
                    break;
                }
            }
        }

        self.expect(&TokenKind::Pipe, "expected '|' to close closure parameters")?;

        let return_type: Option<Type> = if self.match_token(&TokenKind::Arrow) {
            Some(self.parse_type(f)?)
        } else {
            None
        };

        let body: ClosureBody = if self.match_token(&TokenKind::Colon) {
            if self.match_token(&TokenKind::Newline) {
                let block = self.parse_block(f)?;
                ClosureBody::Block(block)
            } else {
                let expr = self.parse_expression(f)?;
                ClosureBody::Expr(Box::new(expr))
            }
        } else {
            let expr = self.parse_expression(f)?;
            ClosureBody::Expr(Box::new(expr))
        };

        let span = start_span.merge(self.previous_span());

        Ok(Expr::Closure { params, return_type, body, span })
    }

    /// Parses a syntactic type.
    fn parse_type(&mut self, fuel: u64) -> (r: Result<Type, ()>)
        requires
            old(self).wf(),
        ensures
            final(self).wf(),
            final(self).tokens == old(self).tokens,
        decreases fuel,
    {
        if fuel == 0 {
            self.error_at_current("type nesting too deep");
            return Err(());
        }
        let f = fuel - 1;

        if self.match_token(&TokenKind::Ampersand) {
            let inner = self.parse_type(f)?;
            return Ok(Type::Ref(Box::new(inner)));
        }
        if self.match_token(&TokenKind::AmpersandMut) {
            let inner = self.parse_type(f)?;
            return Ok(Type::MutRef(Box::new(inner)));
        }

        if self.match_token(&TokenKind::LBracket) {
            let inner = self.parse_type(f)?;
            self.expect(&TokenKind::RBracket, "expected ']'")?;
            return Ok(Type::Array(Box::new(inner)));
        }

        if self.match_token(&TokenKind::LParen) {
            let mut types: Vec<Type> = Vec::new();

            if !self.check(&TokenKind::RParen) {
                types.push(self.parse_type(f)?);
                let mut guard: usize = self.tokens.len();
                loop
                    invariant
                        self.wf(),
                        self.tokens == old(self).tokens,
                        f < fuel,
                    decreases guard,
                {
                    if guard == 0 || !self.match_token(&TokenKind::Comma) {
                        break;
                    }
                    guard = guard - 1;
                    if self.check(&TokenKind::RParen) {
                        break;
                    }
                    types.push(self.parse_type(f)?);
                }
            }

            self.expect(&TokenKind::RParen, "expected ')'")?;
            return Ok(Type::Tuple(types));
        }

        if self.match_token(&TokenKind::Fn) {
            self.expect(&TokenKind::LParen, "expected '(' for function type")?;

            let mut param_types: Vec<Type> = Vec::new();
            if !self.check(&TokenKind::RParen) {
                param_types.push(self.parse_type(f)?);
                let mut guard: usize = self.tokens.len();
                loop
                    invariant
                        self.wf(),
                        self.tokens == old(self).tokens,
                        f < fuel,
                    decreases guard,
                {
                    if guard == 0 || !self.match_token(&TokenKind::Comma) {
                        break;
                    }
                    guard = guard - 1;
                    param_types.push(self.parse_type(f)?);
                }
            }

            self.expect(&TokenKind::RParen, "expected ')'")?;
            self.expect(&TokenKind::Arrow, "expected '->' for function type")?;

            let ret = self.parse_type(f)?;

            return Ok(Type::Function { params: param_types, return_type: Box::new(ret) });
        }

        let name: String = match &self.peek().kind {
            TokenKind::IntType => {
                self.advance();
                return Ok(Type::Int);
            },
            TokenKind::FloatType => {
                self.advance();
                return Ok(Type::Float);
            },
            TokenKind::BoolType => {
                self.advance();
                return Ok(Type::Bool);
            },
            TokenKind::StringType => {
                self.advance();
                return Ok(Type::String);
            },
            TokenKind::Ident(n) => {
                let name = n.clone();
                self.advance();
                name
            },
            TokenKind::ResultType => {
                self.advance();
                "Result".to_owned()
            },
            TokenKind::OptionType => {
                self.advance();
                "Option".to_owned()
            },
            _ => {
                self.error_at_current("type expected");
                return Err(());
            },
        };

        if self.match_token(&TokenKind::Lt) {
            let mut args: Vec<Type> = Vec::new();
            args.push(self.parse_type(f)?);
            let mut guard: usize = self.tokens.len();
            loop
                invariant
                    self.wf(),
                    self.tokens == old(self).tokens,
                    f < fuel,
                decreases guard,
            {
                if guard == 0 || !self.match_token(&TokenKind::Comma) {
                    break;
                }
                guard = guard - 1;
                args.push(self.parse_type(f)?);
            }
            self.expect(&TokenKind::Gt, "expected '>'")?;
            return Ok(Type::Generic { name, args });
        }

        Ok(Type::Named(name))
    }

    /// Parses a call argument list.
    fn parse_arg_list(&mut self, fuel: u64) -> (r: Result<Vec<Expr>, ()>)
        requires
            old(self).wf(),
        ensures
            final(self).wf(),
            final(self).tokens == old(self).tokens,
        decreases fuel,
    {
        if fuel == 0 {
            self.error_at_current("expression nesting too deep");
            return Err(());
        }
        let f = fuel - 1;
        let mut args: Vec<Expr> = Vec::new();

        if !self.check(&TokenKind::RParen) {
            args.push(self.parse_expression(f)?);
            let mut guard: usize = self.tokens.len();
            loop
                invariant
                    self.wf(),
                    self.tokens == old(self).tokens,
                    f < fuel,
                decreases guard,
            {
                if guard == 0 || !self.match_token(&TokenKind::Comma) {
                    break;
                }
                guard = guard - 1;
                args.push(self.parse_expression(f)?);
            }
        }

        Ok(args)
    }
}

/// Whether an identifier begins with an uppercase letter.
fn starts_uppercase(name: &str) -> (r: bool) {
    let chars = crate::text::str_chars(name);
    if chars.len() == 0 {
        return false;
    }
    let c = chars[0] as u32;
    0x41 <= c && c <= 0x5a
}

/// Parses a token stream into a program, returning the syntax tree and any
/// diagnostics.
pub fn parse(tokens: Vec<Token>) -> (r: (Program, Diagnostics))
    ensures
        tokens@.len() == 1 && tokens@[0].kind is Eof ==> (r.0.statements@.len() == 0
            && r.1@.len() == 0),
{
    let mut parser = Parser::new(tokens);
    let program = parser.parse();
    let diags = parser.take_diagnostics();
    (program, diags)
}

} // verus!
