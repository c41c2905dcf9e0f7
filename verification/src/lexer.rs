//! The lexer: turns source text into tokens, with Python-style significant
//! indentation.

use vstd::prelude::*;

use crate::diagnostic::{Diagnostic, ErrorCode};
use crate::diagnostics::Diagnostics;
use crate::span::{Position, Span};
use crate::text::{cat3, char_is_alphabetic, char_is_alphanumeric, char_to_string, chars_to_string, push_char, str_chars};
use crate::token::{Token, TokenKind};

verus! {

/// The Mendes language lexer.
pub struct Lexer {
    /// Source code characters.
    chars: Vec<char>,
    /// Current position: an index into `chars`.
    pos: usize,
    /// Current line (1-indexed).
    line: u32,
    /// Current column (1-indexed).
    column: u32,
    /// Byte offset from the start of the source.
    offset: usize,
    /// Source file ID.
    file_id: u32,
    /// Stack of indentation levels.
    indent_stack: Vec<u32>,
    /// Whether we are at the start of a line, where indentation is read.
    at_line_start: bool,
    /// Accumulated diagnostics.
    diagnostics: Diagnostics,
}

/// The UTF-8 length of a character, by its code point range.
pub open spec fn spec_utf8_len(c: char) -> nat {
    if (c as nat) < 0x80 {
        1
    } else if (c as nat) < 0x800 {
        2
    } else if (c as nat) < 0x10000 {
        3
    } else {
        4
    }
}

/// Computes the UTF-8 length of a character.
fn utf8_len(c: char) -> (r: usize)
    ensures
        r == spec_utf8_len(c),
{
    let v = c as u32;
    if v < 0x80 {
        1
    } else if v < 0x800 {
        2
    } else if v < 0x10000 {
        3
    } else {
        4
    }
}

impl Lexer {
    /// The cursor never runs past the end of the character buffer.
    pub closed spec fn wf(&self) -> bool {
        self.pos <= self.chars@.len()
    }

    /// The cursor stands at the end of the input.
    pub closed spec fn spec_at_end(&self) -> bool {
        self.pos >= self.chars@.len()
    }

    /// How many indentation levels are open.
    pub closed spec fn spec_indent_depth(&self) -> int {
        self.indent_stack@.len() as int
    }

    /// Creates a lexer over the given source code.
    pub fn new(source: &str, file_id: u32) -> (r: Self)
        ensures
            r.wf(),
            source@.len() == 0 ==> r.spec_at_end(),
            r.spec_indent_depth() == 1,
    {
        Lexer {
            chars: str_chars(source),
            pos: 0,
            line: 1,
            column: 1,
            offset: 0,
            file_id,
            indent_stack: {
                let mut v: Vec<u32> = Vec::new();
                v.push(0);
                v
            },
            at_line_start: true,
            diagnostics: Diagnostics::new(),
        }
    }

    /// The accumulated diagnostics.
    pub fn diagnostics(&self) -> (r: &Diagnostics) {
        &self.diagnostics
    }

    /// Moves the accumulated diagnostics out.
    pub fn take_diagnostics(&mut self) -> (r: Diagnostics)
        ensures
            final(self).wf() == old(self).wf(),
    {
        self.diagnostics.take()
    }

    /// The current character, without advancing.
    fn peek(&self) -> (r: Option<char>)
        ensures
            r == (if self.pos < self.chars@.len() {
                Some(self.chars@[self.pos as int])
            } else {
                Option::<char>::None
            }),
    {
        if self.pos < self.chars.len() {
            Some(self.chars[self.pos])
        } else {
            None
        }
    }

    /// The character after the current one, without advancing.
    fn peek_next(&self) -> (r: Option<char>)
        ensures
            r == (if self.pos + 1 < self.chars@.len() {
                Some(self.chars@[self.pos + 1])
            } else {
                Option::<char>::None
            }),
    {
        if self.pos >= self.chars.len() {
            return None;
        }
        if self.pos + 1 < self.chars.len() {
            Some(self.chars[self.pos + 1])
        } else {
            None
        }
    }

    /// Advances to the next character, tracking line, column and offset.
    fn advance(&mut self) -> (r: Option<char>)
        requires
            old(self).wf(),
        ensures
            final(self).wf(),
            final(self).chars == old(self).chars,
            final(self).file_id == old(self).file_id,
            final(self).indent_stack == old(self).indent_stack,
            final(self).diagnostics == old(self).diagnostics,
            old(self).pos < old(self).chars@.len() ==> final(self).pos == old(self).pos + 1 && r
                == Some(old(self).chars@[old(self).pos as int]),
            old(self).pos >= old(self).chars@.len() ==> final(self).pos == old(self).pos && r
                is None,
    {
        if self.pos >= self.chars.len() {
            return None;
        }
        let ch = self.chars[self.pos];
        self.pos = self.pos + 1;
        let step = utf8_len(ch);
        self.offset = if self.offset <= usize::MAX - 4 {
            self.offset + step
        } else {
            self.offset
        };
        if ch == '\n' {
            self.line = if self.line < 0xffff_ffffu32 {
                self.line + 1
            } else {
                self.line
            };
            self.column = 1;
            self.at_line_start = true;
        } else {
            self.column = if self.column < 0xffff_ffffu32 {
                self.column + 1
            } else {
                self.column
            };
        }
        Some(ch)
    }

    /// The current position in the source.
    fn current_position(&self) -> (r: Position) {
        Position { line: self.line, column: self.column, offset: self.offset }
    }

    /// A span from a start position to the current one.
    fn make_span(&self, start: Position) -> (r: Span) {
        Span { start, end: self.current_position(), file_id: self.file_id }
    }

    /// Skips spaces, tabs and carriage returns (but not newlines).
    fn skip_whitespace(&mut self)
        requires
            old(self).wf(),
        ensures
            final(self).wf(),
            old(self).spec_at_end() ==> *final(self) == *old(self),
    {
        loop
            invariant
                self.wf(),
                old(self).spec_at_end() ==> *self == *old(self),
            decreases self.chars@.len() - self.pos,
        {
            match self.peek() {
                Some(ch) => {
                    if ch == ' ' || ch == '\t' || ch == '\r' {
                        self.advance();
                    } else {
                        break;
                    }
                },
                None => {
                    break;
                },
            }
        }
    }

    /// Skips a comment: `#` until the end of the line.
    fn skip_comment(&mut self)
        requires
            old(self).wf(),
        ensures
            final(self).wf(),
            old(self).spec_at_end() ==> *final(self) == *old(self),
    {
        if let Some(c0) = self.peek() {
            if c0 == '#' {
                loop
                    invariant
                        self.wf(),
                    decreases self.chars@.len() - self.pos,
                {
                    match self.peek() {
                        Some(ch) => {
                            if ch == '\n' {
                                break;
                            }
                            self.advance();
                        },
                        None => {
                            break;
                        },
                    }
                }
            }
        }
    }

    /// Counts the indentation at the beginning of a line; a tab counts as
    /// four spaces.
    fn count_indent(&mut self) -> (r: u32)
        requires
            old(self).wf(),
        ensures
            final(self).wf(),
    {
        let mut spaces: u32 = 0;
        loop
            invariant
                self.wf(),
            decreases self.chars@.len() - self.pos,
        {
            match self.peek() {
                Some(ch) => {
                    if ch == ' ' {
                        spaces = if spaces <= 0xffff_fffbu32 {
                            spaces + 1
                        } else {
                            spaces
                        };
                        self.advance();
                    } else if ch == '\t' {
                        spaces = if spaces <= 0xffff_fffbu32 {
                            spaces + 4
                        } else {
                            spaces
                        };
                        self.advance();
                    } else {
                        break;
                    }
                },
                None => {
                    break;
                },
            }
        }
        spaces
    }

    /// Reads the indentation of a fresh line and produces the INDENT or
    /// DEDENT tokens it calls for.
    fn handle_indentation(&mut self) -> (r: Vec<Token>)
        requires
            old(self).wf(),
        ensures
            final(self).wf(),
    {
        let mut tokens: Vec<Token> = Vec::new();
        let start = self.current_position();

        let indent = self.count_indent();
        let current_indent: u32 = if self.indent_stack.len() > 0 {
            self.indent_stack[self.indent_stack.len() - 1]
        } else {
            0
        };

        if indent > current_indent {
            self.indent_stack.push(indent);
            let sp = self.make_span(start);
            tokens.push(Token::new(TokenKind::Indent, sp));
        } else if indent < current_indent {
            loop
                invariant
                    self.wf(),
                decreases self.indent_stack@.len(),
            {
                if self.indent_stack.len() == 0 {
                    break;
                }
                let level = self.indent_stack[self.indent_stack.len() - 1];
                if level > indent {
                    self.indent_stack.pop();
                    let sp = self.make_span(start);
                    tokens.push(Token::new(TokenKind::Dedent, sp));
                } else if level < indent {
                    let sp = self.make_span(start);
                    self.diagnostics.push(
                        Diagnostic::error("inconsistent indentation").with_code(
                            ErrorCode::invalid_indent(),
                        ).with_label(sp, "indentation does not match any previous level")
                            .with_help("use consistent indentation (4 spaces recommended)"),
                    );
                    break;
                } else {
                    break;
                }
            }
        }

        self.at_line_start = false;
        tokens
    }

    /// Reads a number: a decimal integer or float, or a hex, binary or
    /// octal integer.
    fn read_number(&mut self) -> (r: Token)
        requires
            old(self).wf(),
        ensures
            final(self).wf(),
    {
        let start = self.current_position();
        let mut digits: Vec<char> = Vec::new();
        let mut text: Vec<char> = Vec::new();
        let mut is_float = false;

        if let Some(c0) = self.peek() {
            if c0 == '0' {
                self.advance();
                text.push('0');
                digits.push('0');
                let after = self.peek();
                if let Some(c1) = after {
                    if c1 == 'x' || c1 == 'X' {
                        self.advance();
                        let mut value: u64 = 0;
                        let mut overflow = false;
                        loop
                            invariant
                                self.wf(),
                            decreases self.chars@.len() - self.pos,
                        {
                            match self.peek() {
                                Some(ch) => {
                                    let d = hex_digit_value(ch);
                                    if d >= 0 {
                                        if value > 0x0fff_ffff_ffff_ffffu64 {
                                            overflow = true;
                                            value = 0;
                                        } else {
                                            value = value * 16 + (d as u64);
                                        }
                                        self.advance();
                                    } else if ch == '_' {
                                        self.advance();
                                    } else {
                                        break;
                                    }
                                },
                                None => {
                                    break;
                                },
                            }
                        }
                        let out: i64 = if !overflow && value <= 0x7fff_ffff_ffff_ffffu64 {
                            value as i64
                        } else {
                            0
                        };
                        let sp = self.make_span(start);
                        return Token::new(TokenKind::IntLit(out), sp);
                    } else if c1 == 'b' || c1 == 'B' {
                        self.advance();
                        let mut value: u64 = 0;
                        let mut overflow = false;
                        loop
                            invariant
                                self.wf(),
                            decreases self.chars@.len() - self.pos,
                        {
                            match self.peek() {
                                Some(ch) => {
                                    if ch == '0' || ch == '1' {
                                        if value > 0x7fff_ffff_ffff_ffffu64 {
                                            overflow = true;
                                            value = 0;
                                        } else {
                                            value = value * 2 + (
                                            if ch == '1' {
                                                1u64
                                            } else {
                                                0u64
                                            });
                                        }
                                        self.advance();
                                    } else if ch == '_' {
                                        self.advance();
                                    } else {
                                        break;
                                    }
                                },
                                None => {
                                    break;
                                },
                            }
                        }
                        let out: i64 = if !overflow && value <= 0x7fff_ffff_ffff_ffffu64 {
                            value as i64
                        } else {
                            0
                        };
                        let sp = self.make_span(start);
                        return Token::new(TokenKind::IntLit(out), sp);
                    } else if c1 == 'o' || c1 == 'O' {
                        self.advance();
                        let mut value: u64 = 0;
                        let mut overflow = false;
                        loop
                            invariant
                                self.wf(),
                            decreases self.chars@.len() - self.pos,
                        {
                            match self.peek() {
                                Some(ch) => {
                                    let v = ch as u32;
                                    if 0x30 <= v && v <= 0x37 {
                                        if value > 0x1fff_ffff_ffff_ffffu64 {
                                            overflow = true;
                                            value = 0;
                                        } else {
                                            value = value * 8 + ((v - 0x30) as u64);
                                        }
                                        self.advance();
                                    } else if ch == '_' {
                                        self.advance();
                                    } else {
                                        break;
                                    }
                                },
                                None => {
                                    break;
                                },
                            }
                        }
                        let out: i64 = if !overflow && value <= 0x7fff_ffff_ffff_ffffu64 {
                            value as i64
                        } else {
                            0
                        };
                        let sp = self.make_span(start);
                        return Token::new(TokenKind::IntLit(out), sp);
                    }
                }
            }
        }

        // Decimal digits.
        loop
            invariant
                self.wf(),
            decreases self.chars@.len() - self.pos,
        {
            match self.peek() {
                Some(ch) => {
                    let v = ch as u32;
                    if 0x30 <= v && v <= 0x39 {
                        digits.push(ch);
                        text.push(ch);
                        self.advance();
                    } else if ch == '_' {
                        self.advance();
                    } else {
                        break;
                    }
                },
                None => {
                    break;
                },
            }
        }

        // Fractional part.
        let dot_follows = match (self.peek(), self.peek_next()) {
            (Some(c1), Some(c2)) => c1 == '.' && {
                let v = c2 as u32;
                0x30 <= v && v <= 0x39
            },
            _ => false,
        };
        if dot_follows {
            is_float = true;
            self.advance();
            text.push('.');
            loop
                invariant
                    self.wf(),
                decreases self.chars@.len() - self.pos,
            {
                match self.peek() {
                    Some(ch) => {
                        let v = ch as u32;
                        if 0x30 <= v && v <= 0x39 {
                            text.push(ch);
                            self.advance();
                        } else if ch == '_' {
                            self.advance();
                        } else {
                            break;
                        }
                    },
                    None => {
                        break;
                    },
                }
            }
        }

        // Exponent.
        let exp_follows = match self.peek() {
            Some(ch) => ch == 'e' || ch == 'E',
            None => false,
        };
        if exp_follows {
            is_float = true;
            let e = self.advance();
            if let Some(ec) = e {
                text.push(ec);
            }
            match self.peek() {
                Some(sign) => {
                    if sign == '+' || sign == '-' {
                        self.advance();
                        text.push(sign);
                    }
                },
                None => {},
            }
            loop
                invariant
                    self.wf(),
                decreases self.chars@.len() - self.pos,
            {
                match self.peek() {
                    Some(ch) => {
                        let v = ch as u32;
                        if 0x30 <= v && v <= 0x39 {
                            text.push(ch);
                            self.advance();
                        } else {
                            break;
                        }
                    },
                    None => {
                        break;
                    },
                }
            }
        }

        let sp = self.make_span(start);
        if is_float {
            Token::new(TokenKind::FloatLit(chars_to_string(&text)), sp)
        } else {
            // Parse the decimal digits, reporting overflow.
            let mut value: u64 = 0;
            let mut overflow = false;
            let mut i: usize = 0;
            while i < digits.len()
                invariant
                    i <= digits@.len(),
                decreases digits@.len() - i,
            {
                let v = digits[i] as u32;
                let d: u64 = if 0x30 <= v && v <= 0x39 {
                    (v - 0x30) as u64
                } else {
                    0
                };
                if value > 0x1999_9999_9999_9999u64 - 1 {
                    overflow = true;
                    value = 0;
                } else {
                    value = value * 10;
                    if value > u64::MAX - d {
                        overflow = true;
                        value = 0;
                    } else {
                        value = value + d;
                    }
                }
                i = i + 1;
            }
            if overflow || value > 0x7fff_ffff_ffff_ffffu64 {
                self.diagnostics.push(
                    Diagnostic::error("invalid integer number").with_code(
                        ErrorCode::invalid_number(),
                    ).with_label(sp, "could not convert to integer"),
                );
                Token::new(TokenKind::IntLit(0), sp)
            } else {
                Token::new(TokenKind::IntLit(value as i64), sp)
            }
        }
    }

    /// Reads a quoted string with escape sequences.
    fn read_string(&mut self) -> (r: Token)
        requires
            old(self).wf(),
        ensures
            final(self).wf(),
    {
        let start = self.current_position();
        let quote = match self.advance() {
            Some(q) => q,
            None => '"',
        };
        let mut value: Vec<char> = Vec::new();

        loop
            invariant
                self.wf(),
            decreases self.chars@.len() - self.pos,
        {
            let next = self.peek();
            match next {
                None => {
                    let sp = self.make_span(start);
                    let qs = char_to_string(quote);
                    let help = cat3("add ", qs.as_str(), " at the end of the string");
                    self.diagnostics.push(
                        Diagnostic::error("unterminated string").with_code(
                            ErrorCode::unterminated_string(),
                        ).with_label(sp, "string starts here but was not closed").with_help(
                            help.as_str(),
                        ),
                    );
                    return Token::new(TokenKind::StringLit(chars_to_string(&value)), sp);
                },
                Some(ch) => {
                    if ch == '\n' {
                        let sp = self.make_span(start);
                        let qs = char_to_string(quote);
                        let help = cat3("add ", qs.as_str(), " at the end of the string");
                        self.diagnostics.push(
                            Diagnostic::error("unterminated string").with_code(
                                ErrorCode::unterminated_string(),
                            ).with_label(sp, "string starts here but was not closed").with_help(
                                help.as_str(),
                            ),
                        );
                        return Token::new(TokenKind::StringLit(chars_to_string(&value)), sp);
                    } else if ch == '\\' {
                        self.advance();
                        match self.peek() {
                            Some(esc) => {
                                if esc == 'n' {
                                    value.push('\n');
                                } else if esc == 't' {
                                    value.push('\t');
                                } else if esc == 'r' {
                                    value.push('\r');
                                } else if esc == '0' {
                                    value.push('\0');
                                } else {
                                    value.push(esc);
                                }
                                self.advance();
                            },
                            None => {
                                break;
                            },
                        }
                    } else if ch == quote {
                        self.advance();
                        break;
                    } else {
                        value.push(ch);
                        self.advance();
                    }
                },
            }
        }

        let sp = self.make_span(start);
        Token::new(TokenKind::StringLit(chars_to_string(&value)), sp)
    }

    /// Reads an identifier or keyword; an `f` before a quote starts an
    /// interpolated string.
    fn read_identifier(&mut self) -> (r: Token)
        requires
            old(self).wf(),
        ensures
            final(self).wf(),
    {
        let start = self.current_position();
        let mut ident: Vec<char> = Vec::new();

        loop
            invariant
                self.wf(),
            decreases self.chars@.len() - self.pos,
        {
            match self.peek() {
                Some(ch) => {
                    if char_is_alphanumeric(ch) || ch == '_' {
                        ident.push(ch);
                        self.advance();
                    } else {
                        break;
                    }
                },
                None => {
                    break;
                },
            }
        }

        let text = chars_to_string(&ident);

        // f-string: f"..." or f'...'
        let quote_follows = match self.peek() {
            Some(c) => c == '"' || c == '\'',
            None => false,
        };
        if ident.len() == 1 && ident[0] == 'f' && quote_follows {
            return self.read_interpolated_string(start);
        }

        let sp = self.make_span(start);
        let kind = match TokenKind::keyword_from_str(text.as_str()) {
            Some(k) => k,
            None => TokenKind::Ident(text),
        };
        Token::new(kind, sp)
    }

    /// Reads an interpolated string: literal parts interleaved with
    /// brace-delimited expression text.
    fn read_interpolated_string(&mut self, start: Position) -> (r: Token)
        requires
            old(self).wf(),
        ensures
            final(self).wf(),
    {
        let quote = match self.advance() {
            Some(q) => q,
            None => '"',
        };
        let mut parts: Vec<(String, String)> = Vec::new();
        let mut current_lit: Vec<char> = Vec::new();

        loop
            invariant
                self.wf(),
            decreases self.chars@.len() - self.pos,
        {
            let next = self.peek();
            match next {
                None => {
                    let sp = self.make_span(start);
                    let qs = char_to_string(quote);
                    let help = cat3("add ", qs.as_str(), " at the end of the string");
                    self.diagnostics.push(
                        Diagnostic::error("unterminated interpolated string").with_code(
                            ErrorCode::unterminated_string(),
                        ).with_label(sp, "string starts here but was not closed").with_help(
                            help.as_str(),
                        ),
                    );
                    if current_lit.len() > 0 || parts.len() == 0 {
                        parts.push((chars_to_string(&current_lit), String::new()));
                    }
                    return Token::new(TokenKind::InterpolatedString(parts), sp);
                },
                Some(ch) => {
                    if ch == '\n' {
                        let sp = self.make_span(start);
                        let qs = char_to_string(quote);
                        let help = cat3("add ", qs.as_str(), " at the end of the string");
                        self.diagnostics.push(
                            Diagnostic::error("unterminated interpolated string").with_code(
                                ErrorCode::unterminated_string(),
                            ).with_label(sp, "string starts here but was not closed").with_help(
                                help.as_str(),
                            ),
                        );
                        if current_lit.len() > 0 || parts.len() == 0 {
                            parts.push((chars_to_string(&current_lit), String::new()));
                        }
                        return Token::new(TokenKind::InterpolatedString(parts), sp);
                    } else if ch == '\\' {
                        self.advance();
                        match self.peek() {
                            Some(esc) => {
                                if esc == 'n' {
                                    current_lit.push('\n');
                                } else if esc == 't' {
                                    current_lit.push('\t');
                                } else if esc == 'r' {
                                    current_lit.push('\r');
                                } else {
                                    current_lit.push(esc);
                                }
                                self.advance();
                            },
                            None => {
                                break;
                            },
                        }
                    } else if ch == '{' {
                        self.advance();
                        let ghost p0 = self.pos;
                        let ghost c0 = self.chars;
                        let mut expr: Vec<char> = Vec::new();
                        let mut brace_depth: u32 = 1;
                        loop
                            invariant
                                self.wf(),
                                self.pos >= p0,
                                self.chars == c0,
                                brace_depth >= 1,
                            decreases self.chars@.len() - self.pos,
                        {
                            match self.peek() {
                                Some(c2) => {
                                    if c2 == '{' {
                                        brace_depth = if brace_depth < 0xffff_ffffu32 {
                                            brace_depth + 1
                                        } else {
                                            brace_depth
                                        };
                                        expr.push(c2);
                                        self.advance();
                                    } else if c2 == '}' {
                                        if brace_depth == 1 {
                                            self.advance();
                                            break;
                                        }
                                        brace_depth = brace_depth - 1;
                                        expr.push(c2);
                                        self.advance();
                                    } else if c2 == '\n' {
                                        break;
                                    } else {
                                        expr.push(c2);
                                        self.advance();
                                    }
                                },
                                None => {
                                    break;
                                },
                            }
                        }
                        parts.push((chars_to_string(&current_lit), chars_to_string(&expr)));
                        current_lit = Vec::new();
                    } else if ch == quote {
                        self.advance();
                        break;
                    } else {
                        current_lit.push(ch);
                        self.advance();
                    }
                },
            }
        }

        if current_lit.len() > 0 || parts.len() == 0 {
            parts.push((chars_to_string(&current_lit), String::new()));
        }

        let sp = self.make_span(start);
        Token::new(TokenKind::InterpolatedString(parts), sp)
    }

    /// Reads the next token.
    pub fn next_token(&mut self) -> (r: Token)
        requires
            old(self).wf(),
        ensures
            final(self).wf(),
            old(self).spec_at_end() && old(self).spec_indent_depth() == 1 ==> (r.kind is Eof
                && *final(self) == *old(self)),
    {
        // Skip comments.
        self.skip_comment();

        // At the start of a line, process indentation.
        if self.at_line_start {
            // Skip blank lines.
            loop
                invariant
                    self.wf(),
                    old(self).spec_at_end() ==> *self == *old(self),
                decreases self.chars@.len() - self.pos,
            {
                match self.peek() {
                    Some(ch) => {
                        if ch == '\n' {
                            self.advance();
                        } else {
                            break;
                        }
                    },
                    None => {
                        break;
                    },
                }
            }

            if self.pos < self.chars.len() {
                let indent_tokens = self.handle_indentation();
                if indent_tokens.len() > 0 {
                    // Only the first indentation token is returned; any
                    // further dedent at the same point is recovered on a
                    // later call.
                    let mut it = indent_tokens;
                    let first = it.remove(0);
                    return first;
                }
            }
        }

        // Skip spaces, then any comment after them.
        self.skip_whitespace();
        self.skip_comment();

        let start = self.current_position();

        let ch = match self.peek() {
            Some(c) => c,
            None => {
                // Emit DEDENTs to close every open block.
                if self.indent_stack.len() > 1 {
                    self.indent_stack.pop();
                    let sp = self.make_span(start);
                    return Token::new(TokenKind::Dedent, sp);
                }
                let sp = self.make_span(start);
                return Token::new(TokenKind::Eof, sp);
            },
        };

        if ch == '\n' {
            self.advance();
            let sp = self.make_span(start);
            return Token::new(TokenKind::Newline, sp);
        }

        let cv = ch as u32;
        if 0x30 <= cv && cv <= 0x39 {
            return self.read_number();
        }

        if ch == '"' || ch == '\'' {
            return self.read_string();
        }

        if char_is_alphabetic(ch) || ch == '_' {
            return self.read_identifier();
        }

        // Operators and punctuation.
        self.advance();
        let kind: TokenKind = if ch == '+' {
            if self.peek_is('=') {
                self.advance();
                TokenKind::PlusEq
            } else {
                TokenKind::Plus
            }
        } else if ch == '-' {
            if self.peek_is('>') {
                self.advance();
                TokenKind::Arrow
            } else if self.peek_is('=') {
                self.advance();
                TokenKind::MinusEq
            } else {
                TokenKind::Minus
            }
        } else if ch == '*' {
            if self.peek_is('=') {
                self.advance();
                TokenKind::StarEq
            } else {
                TokenKind::Star
            }
        } else if ch == '/' {
            if self.peek_is('=') {
                self.advance();
                TokenKind::SlashEq
            } else {
                TokenKind::Slash
            }
        } else if ch == '%' {
            TokenKind::Percent
        } else if ch == '=' {
            if self.peek_is('=') {
                self.advance();
                TokenKind::EqEq
            } else {
                TokenKind::Eq
            }
        } else if ch == '!' {
            if self.peek_is('=') {
                self.advance();
                TokenKind::Ne
            } else {
                TokenKind::Not
            }
        } else if ch == '<' {
            if self.peek_is('=') {
                self.advance();
                TokenKind::Le
            } else {
                TokenKind::Lt
            }
        } else if ch == '>' {
            if self.peek_is('=') {
                self.advance();
                TokenKind::Ge
            } else {
                TokenKind::Gt
            }
        } else if ch == '&' {
            // `&mut` is one token; backtrack if the letters are not `mut`.
            if self.peek_is('m') {
                let saved_pos = self.pos;
                let saved_offset = self.offset;
                let saved_column = self.column;
                let m1 = self.advance();
                let m2 = self.advance();
                let m3 = self.advance();
                let word_follows = match self.peek() {
                    Some(c2) => char_is_alphanumeric(c2) || c2 == '_',
                    None => false,
                };
                if m1 == Some('m') && m2 == Some('u') && m3 == Some('t') && !word_follows {
                    TokenKind::AmpersandMut
                } else {
                    self.pos = saved_pos;
                    self.offset = saved_offset;
                    self.column = saved_column;
                    TokenKind::Ampersand
                }
            } else {
                TokenKind::Ampersand
            }
        } else if ch == ':' {
            if self.peek_is(':') {
                self.advance();
                TokenKind::ColonColon
            } else {
                TokenKind::Colon
            }
        } else if ch == ',' {
            TokenKind::Comma
        } else if ch == '.' {
            if self.peek_is('.') {
                self.advance();
                if self.peek_is('=') {
                    self.advance();
                    TokenKind::DotDotEq
                } else {
                    TokenKind::DotDot
                }
            } else {
                TokenKind::Dot
            }
        } else if ch == '(' {
            TokenKind::LParen
        } else if ch == ')' {
            TokenKind::RParen
        } else if ch == '{' {
            TokenKind::LBrace
        } else if ch == '}' {
            TokenKind::RBrace
        } else if ch == '[' {
            TokenKind::LBracket
        } else if ch == ']' {
            TokenKind::RBracket
        } else if ch == '|' {
            TokenKind::Pipe
        } else if ch == '$' {
            TokenKind::Dollar
        } else if ch == '?' {
            TokenKind::Question
        } else {
            let sp = self.make_span(start);
            let cs = char_to_string(ch);
            let msg = cat3("unexpected character: '", cs.as_str(), "'");
            self.diagnostics.push(
                Diagnostic::error(msg.as_str()).with_code(ErrorCode::unexpected_char())
                    .with_label(sp, "unrecognized character"),
            );
            let mut emsg = "unexpected character: ".to_owned();
            push_char(&mut emsg, ch);
            TokenKind::Error(emsg)
        };

        let sp = self.make_span(start);
        Token::new(kind, sp)
    }

    /// Whether the current character is the given one.
    fn peek_is(&self, c: char) -> (r: bool)
        ensures
            r == (self.pos < self.chars@.len() && self.chars@[self.pos as int] == c),
    {
        match self.peek() {
            Some(ch) => ch == c,
            None => false,
        }
    }

    /// Tokenizes the entire source code; the stream is never empty and
    /// always ends with an EOF token.
    pub fn tokenize(&mut self) -> (r: Vec<Token>)
        requires
            old(self).wf(),
        ensures
            final(self).wf(),
            r@.len() >= 1,
            r@.last().kind is Eof,
            old(self).spec_at_end() && old(self).spec_indent_depth() == 1 ==> (r@.len() == 1
                && r@[0].kind is Eof),
    {
        let mut tokens: Vec<Token> = Vec::new();

        // Each round either consumes characters or pops an indentation
        // level, so this bound is never reached on real input; it makes
        // termination plain.
        let mut fuel: usize = if self.chars.len() < usize::MAX / 8 {
            4 * self.chars.len() + 64
        } else {
            usize::MAX
        };

        loop
            invariant_except_break
                old(self).spec_at_end() && old(self).spec_indent_depth() == 1 ==> (*self == *old(
                    self,
                ) && tokens@.len() == 0),
            invariant
                self.wf(),
            ensures
                tokens@.len() >= 1 && tokens@.last().kind is Eof,
                old(self).spec_at_end() && old(self).spec_indent_depth() == 1 ==> (tokens@.len()
                    == 1 && tokens@[0].kind is Eof),
            decreases fuel,
        {
            if fuel == 0 {
                let sp = self.make_span(self.current_position());
                tokens.push(Token::new(TokenKind::Eof, sp));
                proof {
                    assert(tokens@.last().kind is Eof);
                }
                break;
            }
            fuel = fuel - 1;
            let token = self.next_token();
            let is_eof = token.is_eof();
            tokens.push(token);
            if is_eof {
                proof {
                    assert(tokens@.last().kind is Eof);
                }
                break;
            }
        }

        tokens
    }
}

/// Tokenizes source code, returning the tokens and any diagnostics.
pub fn tokenize(source: &str, file_id: u32) -> (r: (Vec<Token>, Diagnostics)) {
    let mut lexer = Lexer::new(source, file_id);
    let tokens = lexer.tokenize();
    let diags = lexer.take_diagnostics();
    (tokens, diags)
}

/// The value of a hexadecimal digit, or -1 when the character is none.
fn hex_digit_value(c: char) -> (r: i32)
    ensures
        -1 <= r < 16,
{
    let v = c as u32;
    if 0x30 <= v && v <= 0x39 {
        (v - 0x30) as i32
    } else if 0x61 <= v && v <= 0x66 {
        (v - 0x61 + 10) as i32
    } else if 0x41 <= v && v <= 0x46 {
        (v - 0x41 + 10) as i32
    } else {
        -1
    }
}

} // verus!
