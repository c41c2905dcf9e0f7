//! The end-to-end compilation pipeline: source text through lexing,
//! parsing, semantic analysis, lowering and code generation.

use vstd::prelude::*;

use crate::codegen::{CodeGen, RustBackend};
use crate::diagnostics::Diagnostics;
use crate::semantic::{analyze, SemanticContext};

verus! {

/// The result of compiling one source file.
#[derive(Debug)]
pub struct CompileResult {
    /// Whether compilation succeeded without errors.
    pub success: bool,
    /// The diagnostics produced, when compilation failed.
    pub diagnostics: Diagnostics,
    /// Generated Rust code, on success.
    pub rust_code: Option<String>,
    /// The IR rendered as text, on success.
    pub ir_debug: Option<String>,
}

/// Compiles source text through the full pipeline. On success the result
/// carries the generated code and the IR text and no diagnostics; on
/// failure the diagnostics hold at least one error. Success is exactly
/// the absence of errors among the returned diagnostics, and empty
/// source compiles.
pub fn compile(source: &str) -> (r: CompileResult)
    ensures
        r.success ==> r.rust_code is Some && r.ir_debug is Some && r.diagnostics@.len() == 0,
        !r.success ==> r.diagnostics.spec_has_errors(),
        r.success <==> !r.diagnostics.spec_has_errors(),
        source@.len() == 0 ==> r.success,
{
    // Lexing.
    let mut lexer = crate::lexer::Lexer::new(source, 0);
    let tokens = lexer.tokenize();

    // Parsing.
    let (program, parse_diags) = crate::parser::parse(tokens);
    if parse_diags.has_errors() {
        return CompileResult {
            success: false,
            diagnostics: parse_diags,
            rust_code: None,
            ir_debug: None,
        };
    }

    // Semantic analysis.
    let mut ctx = SemanticContext::new();
    let semantic_diags = analyze(&program, &mut ctx);
    if semantic_diags.has_errors() {
        return CompileResult {
            success: false,
            diagnostics: semantic_diags,
            rust_code: None,
            ir_debug: None,
        };
    }

    // Lowering. This runs whatever the checking verdict; here it is
    // reached only on clean programs because the driver gates on errors.
    let ir_module = crate::ir::lower::lower_program(&program);
    let ir_debug = ir_module.to_text();

    // Code generation with the Rust backend.
    let backend = RustBackend::new();
    let rust_code = backend.generate(&ir_module);

    CompileResult {
        success: true,
        diagnostics: Diagnostics::new(),
        rust_code: Some(rust_code),
        ir_debug: Some(ir_debug),
    }
}

} // verus!
