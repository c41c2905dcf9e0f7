//! The Mendes language compiler: lexing, parsing, type checking with
//! generic inference, ownership and borrow tracking, lowering to a
//! basic-block intermediate representation, and Rust code generation.
//!
//! The heart of the crate is the middle end: the type model with its
//! structural compatibility relation, the scoped symbol table, the
//! per-variable ownership state machine, the two-pass checker, and the
//! lowering pass that turns an arbitrary statement tree into a graph of
//! terminated basic blocks with a value-unique string table.

pub mod assoc;
pub mod ast;
pub mod checker;
pub mod codegen;
pub mod diagnostic;
pub mod diagnostics;
pub mod ir;
pub mod lexer;
pub mod ownership;
pub mod parser;
pub mod pipeline;
pub mod semantic;
pub mod span;
pub mod symbols;
pub mod text;
pub mod token;
pub mod types;

pub use diagnostic::{
    Diagnostic, DiagnosticRenderer, ErrorCode, Label, Level, SourceCache, SourceFile, Suggestion,
};
pub use checker::TypeChecker;
pub use diagnostics::Diagnostics;
pub use pipeline::{compile, CompileResult};
pub use semantic::{analyze, SemanticContext};
pub use symbols::{Symbol, SymbolKind, SymbolTable};
pub use span::{Position, Span, Spanned};
pub use types::{MendesType, TypeId};
