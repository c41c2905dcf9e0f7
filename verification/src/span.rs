//! Source locations: a position in a file and a spanned region.

use vstd::prelude::*;

verus! {

/// A position in the source code.
#[derive(Debug, Clone, Copy, PartialEq, Eq, Structural, Default)]
pub struct Position {
    /// Line (1-indexed).
    pub line: u32,
    /// Column (1-indexed).
    pub column: u32,
    /// Byte offset from the beginning of the file.
    pub offset: usize,
}

impl Position {
    pub fn new(line: u32, column: u32, offset: usize) -> (r: Self)
        ensures
            r == (Position { line, column, offset }),
    {
        Position { line, column, offset }
    }
}

/// A region in the source code, from a start to an end position.
#[derive(Debug, Clone, Copy, PartialEq, Eq, Structural, Default)]
pub struct Span {
    /// Start position.
    pub start: Position,
    /// End position.
    pub end: Position,
    /// Source file ID, to support several files.
    pub file_id: u32,
}

impl Span {
    pub fn new(start: Position, end: Position, file_id: u32) -> (r: Self)
        ensures
            r == (Span { start, end, file_id }),
    {
        Span { start, end, file_id }
    }

    /// A span that covers a single position.
    pub fn point(pos: Position, file_id: u32) -> (r: Self)
        ensures
            r == (Span { start: pos, end: pos, file_id }),
    {
        Span { start: pos, end: pos, file_id }
    }

    /// Combines two spans into one that covers both.
    pub fn merge(self, other: Span) -> (r: Span)
        ensures
            r.start == (if self.start.offset < other.start.offset { self.start } else { other.start }),
            r.end == (if self.end.offset > other.end.offset { self.end } else { other.end }),
            r.file_id == self.file_id,
    {
        Span {
            start: if self.start.offset < other.start.offset {
                self.start
            } else {
                other.start
            },
            end: if self.end.offset > other.end.offset {
                self.end
            } else {
                other.end
            },
            file_id: self.file_id,
        }
    }

    /// The length in bytes.
    pub fn len(&self) -> (r: usize)
        ensures
            r == if self.end.offset >= self.start.offset {
                self.end.offset - self.start.offset
            } else {
                0
            },
    {
        if self.end.offset >= self.start.offset {
            self.end.offset - self.start.offset
        } else {
            0
        }
    }

    /// Whether the span is empty.
    pub fn is_empty(&self) -> (r: bool)
        ensures
            r == (self.end.offset <= self.start.offset),
    {
        self.len() == 0
    }
}

/// Types that carry a location in the source code.
pub trait Spanned {
    fn span(&self) -> Span;
}

} // verus!
