//! Rust-style diagnostics: severity levels, structured error codes, labeled
//! source spans, notes and fix suggestions, and a plain-text renderer.

use vstd::prelude::*;

use crate::span::Span;
use crate::text::{push_char, push_str, repeat_char, u64_to_dec};

verus! {

/// Diagnostic severity level.
#[derive(Debug, Clone, Copy, PartialEq, Eq, Structural)]
pub enum Level {
    /// Fatal error: prevents compilation.
    Error,
    /// Warning: does not prevent compilation.
    Warning,
    /// Note: additional information.
    Note,
    /// Help: fix suggestion.
    Help,
}

impl Level {
    pub fn as_str(&self) -> (r: &'static str)
        ensures
            self is Error ==> r@ == "error"@,
            self is Warning ==> r@ == "warning"@,
            self is Note ==> r@ == "note"@,
            self is Help ==> r@ == "help"@,
    {
        match self {
            Level::Error => "error",
            Level::Warning => "warning",
            Level::Note => "note",
            Level::Help => "help",
        }
    }

    /// The ANSI code that colours this level on a terminal.
    pub fn color_code(&self) -> (r: &'static str) {
        match self {
            Level::Error => "\x1b[1;31m",
            Level::Warning => "\x1b[1;33m",
            Level::Note => "\x1b[1;36m",
            Level::Help => "\x1b[1;32m",
        }
    }
}

/// A fix suggestion.
#[derive(Debug, Clone)]
pub struct Suggestion {
    /// Suggestion message.
    pub message: String,
    /// Span where to apply the suggestion, if any.
    pub span: Option<Span>,
    /// Suggested replacement text, if any.
    pub replacement: Option<String>,
}

impl Suggestion {
    pub fn new(message: &str) -> (r: Self)
        ensures
            r.message@ == message@,
            r.span is None,
            r.replacement is None,
    {
        Suggestion { message: message.to_owned(), span: None, replacement: None }
    }

    pub fn with_replacement(self, span: Span, replacement: &str) -> (r: Self)
        ensures
            r.message == self.message,
            r.span == Some(span),
            r.replacement matches Some(t) && t@ == replacement@,
    {
        Suggestion {
            message: self.message,
            span: Some(span),
            replacement: Some(replacement.to_owned()),
        }
    }
}

/// A label pointing at a region of the source code.
#[derive(Debug, Clone)]
pub struct Label {
    /// Span of the region.
    pub span: Span,
    /// Label message.
    pub message: String,
    /// Whether this is the primary label, rather than a secondary one.
    pub primary: bool,
}

impl Label {
    pub fn primary(span: Span, message: &str) -> (r: Self)
        ensures
            r.span == span,
            r.message@ == message@,
            r.primary,
    {
        Label { span, message: message.to_owned(), primary: true }
    }

    pub fn secondary(span: Span, message: &str) -> (r: Self)
        ensures
            r.span == span,
            r.message@ == message@,
            !r.primary,
    {
        Label { span, message: message.to_owned(), primary: false }
    }
}

/// Structured error code: a category letter and a number.
#[derive(Debug, Clone, Copy, PartialEq, Eq, Structural)]
pub struct ErrorCode {
    /// Category (L = lexer, P = parser, T = types, O = ownership).
    pub category: char,
    /// Error number within the category.
    pub number: u16,
}

impl ErrorCode {
    pub fn new(category: char, number: u16) -> (r: Self)
        ensures
            r == (ErrorCode { category, number }),
    {
        ErrorCode { category, number }
    }

    pub fn unexpected_char() -> (r: Self)
        ensures
            r == (ErrorCode { category: 'L', number: 1u16 }),
    {
        ErrorCode { category: 'L', number: 1 }
    }

    pub fn unterminated_string() -> (r: Self)
        ensures
            r == (ErrorCode { category: 'L', number: 2u16 }),
    {
        ErrorCode { category: 'L', number: 2 }
    }

    pub fn invalid_number() -> (r: Self)
        ensures
            r == (ErrorCode { category: 'L', number: 3u16 }),
    {
        ErrorCode { category: 'L', number: 3 }
    }

    pub fn invalid_indent() -> (r: Self)
        ensures
            r == (ErrorCode { category: 'L', number: 4u16 }),
    {
        ErrorCode { category: 'L', number: 4 }
    }

    pub fn unexpected_token() -> (r: Self)
        ensures
            r == (ErrorCode { category: 'P', number: 1u16 }),
    {
        ErrorCode { category: 'P', number: 1 }
    }

    pub fn expected_expression() -> (r: Self)
        ensures
            r == (ErrorCode { category: 'P', number: 2u16 }),
    {
        ErrorCode { category: 'P', number: 2 }
    }

    pub fn expected_type() -> (r: Self)
        ensures
            r == (ErrorCode { category: 'P', number: 3u16 }),
    {
        ErrorCode { category: 'P', number: 3 }
    }

    pub fn invalid_syntax() -> (r: Self)
        ensures
            r == (ErrorCode { category: 'P', number: 4u16 }),
    {
        ErrorCode { category: 'P', number: 4 }
    }

    pub fn type_mismatch() -> (r: Self)
        ensures
            r == (ErrorCode { category: 'T', number: 1u16 }),
    {
        ErrorCode { category: 'T', number: 1 }
    }

    pub fn unknown_type() -> (r: Self)
        ensures
            r == (ErrorCode { category: 'T', number: 2u16 }),
    {
        ErrorCode { category: 'T', number: 2 }
    }

    pub fn unknown_variable() -> (r: Self)
        ensures
            r == (ErrorCode { category: 'T', number: 3u16 }),
    {
        ErrorCode { category: 'T', number: 3 }
    }

    pub fn use_after_move() -> (r: Self)
        ensures
            r == (ErrorCode { category: 'O', number: 1u16 }),
    {
        ErrorCode { category: 'O', number: 1 }
    }

    pub fn borrow_after_move() -> (r: Self)
        ensures
            r == (ErrorCode { category: 'O', number: 2u16 }),
    {
        ErrorCode { category: 'O', number: 2 }
    }

    pub fn mut_borrow_conflict() -> (r: Self)
        ensures
            r == (ErrorCode { category: 'O', number: 3u16 }),
    {
        ErrorCode { category: 'O', number: 3 }
    }

    pub fn borrow_across_await() -> (r: Self)
        ensures
            r == (ErrorCode { category: 'O', number: 4u16 }),
    {
        ErrorCode { category: 'O', number: 4 }
    }

    /// Renders the code in the form `E<category><number, three digits>`.
    pub fn to_text(&self) -> (r: String) {
        let mut s = String::new();
        push_char(&mut s, 'E');
        push_char(&mut s, self.category);
        if self.number < 10 {
            push_str(&mut s, "00");
        } else if self.number < 100 {
            push_str(&mut s, "0");
        }
        let d = u64_to_dec(self.number as u64);
        push_str(&mut s, d.as_str());
        s
    }
}

/// A complete diagnostic.
#[derive(Debug, Clone)]
pub struct Diagnostic {
    /// Severity level.
    pub level: Level,
    /// Error code, if any.
    pub code: Option<ErrorCode>,
    /// Main message.
    pub message: String,
    /// Labels pointing at the source code.
    pub labels: Vec<Label>,
    /// Additional notes.
    pub notes: Vec<String>,
    /// Fix suggestions.
    pub suggestions: Vec<Suggestion>,
}

impl Diagnostic {
    /// Creates a new error diagnostic.
    pub fn error(message: &str) -> (r: Self)
        ensures
            r.level is Error,
            r.code is None,
            r.message@ == message@,
            r.labels@ =~= Seq::<Label>::empty(),
            r.notes@ =~= Seq::<String>::empty(),
            r.suggestions@ =~= Seq::<Suggestion>::empty(),
    {
        Diagnostic {
            level: Level::Error,
            code: None,
            message: message.to_owned(),
            labels: Vec::new(),
            notes: Vec::new(),
            suggestions: Vec::new(),
        }
    }

    /// Creates a new warning diagnostic.
    pub fn warning(message: &str) -> (r: Self)
        ensures
            r.level is Warning,
            r.code is None,
            r.message@ == message@,
            r.labels@ =~= Seq::<Label>::empty(),
            r.notes@ =~= Seq::<String>::empty(),
            r.suggestions@ =~= Seq::<Suggestion>::empty(),
    {
        Diagnostic {
            level: Level::Warning,
            code: None,
            message: message.to_owned(),
            labels: Vec::new(),
            notes: Vec::new(),
            suggestions: Vec::new(),
        }
    }

    /// Sets the error code.
    pub fn with_code(self, code: ErrorCode) -> (r: Self)
        ensures
            r.code == Some(code),
            r.level == self.level && r.message == self.message,
            r.labels == self.labels && r.notes == self.notes
                && r.suggestions == self.suggestions,
    {
        let Diagnostic { level, code: _, message, labels, notes, suggestions } = self;
        Diagnostic { level, code: Some(code), message, labels, notes, suggestions }
    }

    /// Adds a primary label.
    pub fn with_label(self, span: Span, message: &str) -> (r: Self)
        ensures
            r.labels@.len() == self.labels@.len() + 1,
            r.labels@.drop_last() == self.labels@,
            r.labels@.last().span == span,
            r.labels@.last().message@ == message@,
            r.labels@.last().primary,
            r.level == self.level && r.code == self.code && r.message == self.message,
            r.notes == self.notes && r.suggestions == self.suggestions,
    {
        let Diagnostic { level, code, message: msg, mut labels, notes, suggestions } = self;
        let ghost orig = labels@;
        labels.push(Label::primary(span, message));
        proof {
            assert(labels@.drop_last() =~= orig);
        }
        Diagnostic { level, code, message: msg, labels, notes, suggestions }
    }

    /// Adds a secondary label.
    pub fn with_secondary_label(self, span: Span, message: &str) -> (r: Self)
        ensures
            r.labels@.len() == self.labels@.len() + 1,
            r.labels@.drop_last() == self.labels@,
            r.labels@.last().span == span,
            r.labels@.last().message@ == message@,
            !r.labels@.last().primary,
            r.level == self.level && r.code == self.code && r.message == self.message,
            r.notes == self.notes && r.suggestions == self.suggestions,
    {
        let Diagnostic { level, code, message: msg, mut labels, notes, suggestions } = self;
        let ghost orig = labels@;
        labels.push(Label::secondary(span, message));
        proof {
            assert(labels@.drop_last() =~= orig);
        }
        Diagnostic { level, code, message: msg, labels, notes, suggestions }
    }

    /// Adds a note.
    pub fn with_note(self, note: &str) -> (r: Self)
        ensures
            r.notes@.len() == self.notes@.len() + 1,
            r.level == self.level && r.code == self.code && r.message == self.message,
            r.labels == self.labels,
    {
        let Diagnostic { level, code, message, labels, mut notes, suggestions } = self;
        notes.push(note.to_owned());
        Diagnostic { level, code, message, labels, notes, suggestions }
    }

    /// Adds a suggestion.
    pub fn with_suggestion(self, suggestion: Suggestion) -> (r: Self)
        ensures
            r.suggestions@ == self.suggestions@.push(suggestion),
            r.level == self.level && r.code == self.code && r.message == self.message,
            r.labels == self.labels,
    {
        let Diagnostic { level, code, message, labels, notes, mut suggestions } = self;
        suggestions.push(suggestion);
        Diagnostic { level, code, message, labels, notes, suggestions }
    }

    /// Adds a simple text-only suggestion.
    pub fn with_help(self, help: &str) -> (r: Self)
        ensures
            r.suggestions@.len() == self.suggestions@.len() + 1,
            r.level == self.level && r.code == self.code && r.message == self.message,
            r.labels == self.labels,
    {
        self.with_suggestion(Suggestion::new(help))
    }
}

/// A source file kept for rendering diagnostics.
#[derive(Debug)]
pub struct SourceFile {
    pub name: String,
    pub source: String,
    /// The lines of the file, in order.
    lines: Vec<String>,
}

impl SourceFile {
    pub fn new(name: &str, source: &str) -> (r: Self) {
        let chars = crate::text::str_chars(source);
        let mut lines: Vec<String> = Vec::new();
        let mut current: Vec<char> = Vec::new();
        let n = chars.len();
        let mut i: usize = 0;
        while i < n
            invariant
                n == chars.len(),
            decreases n - i,
        {
            let c = chars[i];
            if c == '\n' {
                lines.push(crate::text::chars_to_string(&current));
                current = Vec::new();
            } else {
                current.push(c);
            }
            i = i + 1;
        }
        lines.push(crate::text::chars_to_string(&current));
        SourceFile { name: name.to_owned(), source: source.to_owned(), lines }
    }

    /// The content of a 1-indexed line, without its newline.
    pub fn get_line(&self, line: u32) -> (r: Option<&str>) {
        if line == 0 {
            return None;
        }
        let idx = (line - 1) as usize;
        if idx < self.lines.len() {
            Some(self.lines[idx].as_str())
        } else {
            None
        }
    }
}

/// Information about source files, for rendering diagnostics.
#[derive(Debug)]
pub struct SourceCache {
    files: Vec<SourceFile>,
}

impl SourceCache {
    pub fn new() -> (r: Self) {
        SourceCache { files: Vec::new() }
    }

    /// Adds a file and returns its ID.
    pub fn add(&mut self, name: &str, source: &str) -> (r: u32) {
        let id = self.files.len();
        let file = SourceFile::new(name, source);
        self.files.push(file);
        if id > 0xffff_ffff {
            0
        } else {
            id as u32
        }
    }

    pub fn get(&self, id: u32) -> (r: Option<&SourceFile>) {
        let idx = id as usize;
        if idx < self.files.len() {
            Some(&self.files[idx])
        } else {
            None
        }
    }
}

/// Renders diagnostics as plain text, with optional terminal colours.
pub struct DiagnosticRenderer<'a> {
    cache: &'a SourceCache,
    use_colors: bool,
}

impl<'a> DiagnosticRenderer<'a> {
    pub fn new(cache: &'a SourceCache) -> (r: Self) {
        DiagnosticRenderer { cache, use_colors: true }
    }

    pub fn without_colors(self) -> (r: Self) {
        DiagnosticRenderer { cache: self.cache, use_colors: false }
    }

    /// Renders one diagnostic as a string.
    pub fn render(&self, diagnostic: &Diagnostic) -> (r: String) {
        let mut output = String::new();

        let reset: &str = if self.use_colors { "\x1b[0m" } else { "" };
        let color: &str = if self.use_colors { diagnostic.level.color_code() } else { "" };
        let bold: &str = if self.use_colors { "\x1b[1m" } else { "" };

        push_str(&mut output, color);
        push_str(&mut output, diagnostic.level.as_str());

        match &diagnostic.code {
            Some(code) => {
                push_char(&mut output, '[');
                let t = code.to_text();
                push_str(&mut output, t.as_str());
                push_char(&mut output, ']');
            }
            None => {}
        }

        push_str(&mut output, reset);
        push_str(&mut output, bold);
        push_str(&mut output, ": ");
        push_str(&mut output, diagnostic.message.as_str());
        push_str(&mut output, reset);
        push_char(&mut output, '\n');

        // Labels with code snippets.
        let mut li: usize = 0;
        while li < diagnostic.labels.len()
            decreases diagnostic.labels.len() - li,
        {
            let label = &diagnostic.labels[li];
            match self.cache.get(label.span.file_id) {
                Some(file) => {
                    let blue: &str = if self.use_colors { "\x1b[1;34m" } else { "" };

                    push_str(&mut output, " ");
                    push_str(&mut output, blue);
                    push_str(&mut output, "-->");
                    push_str(&mut output, reset);
                    push_str(&mut output, " ");
                    push_str(&mut output, file.name.as_str());
                    push_char(&mut output, ':');
                    let ln = u64_to_dec(label.span.start.line as u64);
                    push_str(&mut output, ln.as_str());
                    push_char(&mut output, ':');
                    let col = u64_to_dec(label.span.start.column as u64);
                    push_str(&mut output, col.as_str());
                    push_char(&mut output, '\n');

                    match file.get_line(label.span.start.line) {
                        Some(line_content) => {
                            let line_num_text = u64_to_dec(label.span.start.line as u64);
                            let line_num_width = crate::text::str_chars(
                                line_num_text.as_str(),
                            ).len();
                            let padding = repeat_char(' ', line_num_width);

                            // Empty line with the bar.
                            push_str(&mut output, " ");
                            push_str(&mut output, padding.as_str());
                            push_str(&mut output, " ");
                            push_str(&mut output, blue);
                            push_str(&mut output, "|");
                            push_str(&mut output, reset);
                            push_char(&mut output, '\n');

                            // Line with the code.
                            push_str(&mut output, " ");
                            push_str(&mut output, blue);
                            push_str(&mut output, line_num_text.as_str());
                            push_str(&mut output, reset);
                            push_str(&mut output, " |");
                            push_str(&mut output, reset);
                            push_str(&mut output, " ");
                            push_str(&mut output, line_content);
                            push_char(&mut output, '\n');

                            // Line with the underline.
                            let col_start = label.span.start.column as usize;
                            let line_len = crate::text::str_chars(line_content).len();
                            let underline_len: usize = if label.span.start.line
                                == label.span.end.line {
                                let w = if label.span.end.column > label.span.start.column {
                                    (label.span.end.column - label.span.start.column) as usize
                                } else {
                                    0
                                };
                                if w > 1 { w } else { 1 }
                            } else {
                                let base = if col_start >= 1 { col_start - 1 } else { 0 };
                                let w = if line_len > base { line_len - base } else { 0 };
                                if w > 1 { w } else { 1 }
                            };

                            let spaces = repeat_char(' ', if col_start >= 1 { col_start - 1 } else { 0 });
                            let underline_char = if label.primary { '^' } else { '-' };
                            let underline = repeat_char(underline_char, underline_len);
                            let label_color: &str = if label.primary { color } else { blue };

                            push_str(&mut output, " ");
                            push_str(&mut output, padding.as_str());
                            push_str(&mut output, " ");
                            push_str(&mut output, blue);
                            push_str(&mut output, "|");
                            push_str(&mut output, reset);
                            push_str(&mut output, " ");
                            push_str(&mut output, spaces.as_str());
                            push_str(&mut output, label_color);
                            push_str(&mut output, underline.as_str());
                            push_str(&mut output, " ");
                            push_str(&mut output, label.message.as_str());
                            push_char(&mut output, '\n');
                            push_str(&mut output, reset);
                        }
                        None => {}
                    }
                }
                None => {}
            }
            li = li + 1;
        }

        // Notes.
        let mut ni: usize = 0;
        while ni < diagnostic.notes.len()
            decreases diagnostic.notes.len() - ni,
        {
            push_str(&mut output, "   = ");
            push_str(&mut output, bold);
            push_str(&mut output, "note");
            push_str(&mut output, ": ");
            push_str(&mut output, diagnostic.notes[ni].as_str());
            push_char(&mut output, '\n');
            push_str(&mut output, reset);
            ni = ni + 1;
        }

        // Suggestions.
        let mut si: usize = 0;
        while si < diagnostic.suggestions.len()
            decreases diagnostic.suggestions.len() - si,
        {
            let green: &str = if self.use_colors { "\x1b[1;32m" } else { "" };
            push_str(&mut output, "   = ");
            push_str(&mut output, green);
            push_str(&mut output, "help");
            push_str(&mut output, reset);
            push_str(&mut output, ": ");
            push_str(&mut output, diagnostic.suggestions[si].message.as_str());
            push_char(&mut output, '\n');
            si = si + 1;
        }

        output
    }
}

} // verus!
