//! The semantic analysis context and entry point: a global symbol table, a
//! registry of user-defined types, and the built-in symbols every program
//! starts with.

use vstd::prelude::*;

use crate::ast::Program;
use crate::diagnostics::Diagnostics;
use crate::symbols::{Symbol, SymbolKind, SymbolTable};
use crate::types::{MendesType, TypeRegistry};

verus! {

/// A name is bound in the symbol table to a non-async built-in function
/// taking the given number of parameters.
pub open spec fn builtin_fn_bound(symbols: SymbolTable, name: Seq<char>, arity: int) -> bool {
    symbols.spec_lookup(name) matches Some(sym) && sym.kind matches SymbolKind::Function {
        params,
        is_async,
        ..
    } && !is_async && params@.len() == arity
}

/// Semantic analysis context: the symbol table and the type registry.
pub struct SemanticContext {
    /// Global symbol table.
    pub symbols: SymbolTable,
    /// Registered types.
    pub types: TypeRegistry,
}

impl SemanticContext {
    /// A context with the built-in symbols registered in the global scope.
    pub fn new() -> (r: Self)
        ensures
            r.symbols.spec_depth() == 1,
            r.symbols.spec_lookup("db"@) matches Some(sym) && sym.kind is Variable,
            builtin_fn_bound(r.symbols, "print"@, 1),
            builtin_fn_bound(r.symbols, "println"@, 1),
            builtin_fn_bound(r.symbols, "len"@, 1),
            builtin_fn_bound(r.symbols, "str"@, 1),
            builtin_fn_bound(r.symbols, "int"@, 1),
            builtin_fn_bound(r.symbols, "float"@, 1),
            builtin_fn_bound(r.symbols, "log"@, 1),
            builtin_fn_bound(r.symbols, "HttpError"@, 2),
    {
        let mut ctx = SemanticContext { symbols: SymbolTable::new(), types: TypeRegistry::new() };
        ctx.register_builtins();
        ctx
    }

    /// Registers the built-in symbols: the database namespace and the
    /// built-in functions.
    fn register_builtins(&mut self)
        ensures
            final(self).symbols.spec_depth() == old(self).symbols.spec_depth(),
            old(self).symbols.spec_depth() > 0 ==> {
                &&& final(self).symbols.spec_lookup("db"@) matches Some(sym)
                    && sym.kind is Variable
                &&& builtin_fn_bound(final(self).symbols, "print"@, 1)
                &&& builtin_fn_bound(final(self).symbols, "println"@, 1)
                &&& builtin_fn_bound(final(self).symbols, "len"@, 1)
                &&& builtin_fn_bound(final(self).symbols, "str"@, 1)
                &&& builtin_fn_bound(final(self).symbols, "int"@, 1)
                &&& builtin_fn_bound(final(self).symbols, "float"@, 1)
                &&& builtin_fn_bound(final(self).symbols, "log"@, 1)
                &&& builtin_fn_bound(final(self).symbols, "HttpError"@, 2)
            },
    {
        proof {
            reveal_strlit("db");
            reveal_strlit("print");
            reveal_strlit("println");
            reveal_strlit("len");
            reveal_strlit("str");
            reveal_strlit("int");
            reveal_strlit("float");
            reveal_strlit("log");
            reveal_strlit("HttpError");
            assert("db"@.len() == 2 && "print"@.len() == 5 && "println"@.len() == 7
                && "len"@.len() == 3 && "str"@.len() == 3 && "int"@.len() == 3
                && "float"@.len() == 5 && "log"@.len() == 3 && "HttpError"@.len() == 9);
            assert("print"@[0] == 'p' && "float"@[0] == 'f');
            assert("len"@[0] == 'l' && "str"@[0] == 's' && "int"@[0] == 'i' && "log"@[0] == 'l');
            assert("len"@[1] == 'e' && "log"@[1] == 'o');
        }
        // `db` is the global namespace for database connections.
        self.symbols.define(
            Symbol {
                name: "db".to_owned(),
                kind: SymbolKind::Variable,
                ty: MendesType::Named("DatabaseNamespace".to_owned()),
                mutable: false,
                defined_at: None,
            },
        );

        self.define_builtin_fn("print", "value", MendesType::Any, MendesType::Unit);
        self.define_builtin_fn("println", "value", MendesType::Any, MendesType::Unit);
        self.define_builtin_fn("len", "collection", MendesType::Any, MendesType::Int);
        self.define_builtin_fn("str", "value", MendesType::Any, MendesType::String);
        self.define_builtin_fn("int", "value", MendesType::String, MendesType::Int);
        self.define_builtin_fn("float", "value", MendesType::String, MendesType::Float);
        self.define_builtin_fn("log", "msg", MendesType::String, MendesType::Unit);

        // HttpError(status: int, message: string) -> HttpError
        let mut params: Vec<(String, MendesType)> = Vec::new();
        params.push(("status".to_owned(), MendesType::Int));
        params.push(("message".to_owned(), MendesType::String));
        let mut param_types: Vec<MendesType> = Vec::new();
        param_types.push(MendesType::Int);
        param_types.push(MendesType::String);
        self.symbols.define(
            Symbol {
                name: "HttpError".to_owned(),
                kind: SymbolKind::Function {
                    generic_params: Vec::new(),
                    params,
                    return_type: MendesType::Named("HttpError".to_owned()),
                    is_async: false,
                },
                ty: MendesType::Function {
                    params: param_types,
                    ret: Box::new(MendesType::Named("HttpError".to_owned())),
                },
                mutable: false,
                defined_at: None,
            },
        );
    }

    /// Registers one unary built-in function.
    fn define_builtin_fn(
        &mut self,
        name: &str,
        param_name: &str,
        param_ty: MendesType,
        ret_ty: MendesType,
    )
        ensures
            final(self).symbols.spec_depth() == old(self).symbols.spec_depth(),
            old(self).symbols.spec_depth() > 0 ==> builtin_fn_bound(
                final(self).symbols,
                name@,
                1,
            ),
            old(self).symbols.spec_depth() > 0 ==> forall|n: Seq<char>|
                n != name@ ==> final(self).symbols.spec_lookup(n) == old(
                    self,
                ).symbols.spec_lookup(n),
    {
        let mut params: Vec<(String, MendesType)> = Vec::new();
        params.push((param_name.to_owned(), param_ty.clone()));
        let mut param_types: Vec<MendesType> = Vec::new();
        param_types.push(param_ty);
        self.symbols.define(
            Symbol {
                name: name.to_owned(),
                kind: SymbolKind::Function {
                    generic_params: Vec::new(),
                    params,
                    return_type: ret_ty.clone(),
                    is_async: false,
                },
                ty: MendesType::Function { params: param_types, ret: Box::new(ret_ty) },
                mutable: false,
                defined_at: None,
            },
        );
    }
}

/// Runs semantic analysis over a program and returns the accumulated
/// diagnostics: the type checker's, followed by the ownership tracker's.
/// The context's scope stack comes back at the depth it started, and a
/// program holding a plainly mismatched let declaration at top level is
/// guaranteed a type-mismatch error among the results.
pub fn analyze(program: &Program, ctx: &mut SemanticContext) -> (r: Diagnostics)
    requires
        old(ctx).symbols.spec_depth() >= 1,
    ensures
        final(ctx).symbols.spec_depth() == old(ctx).symbols.spec_depth(),
        program.statements@.len() == 0 ==> r@.len() == 0,
        forall|i: int|
            0 <= i < program.statements@.len() && crate::checker::is_mismatched_let(
                #[trigger] program.statements@[i],
            ) ==> crate::diagnostics::has_code(
                r@,
                crate::diagnostic::ErrorCode { category: 'T', number: 1u16 },
            ),
{
    let mut checker = crate::checker::TypeChecker::new();
    checker.check_program(ctx, program);
    let ghost diags = checker.spec_diags();
    let ghost own = checker.spec_own_diags();
    let r = checker.take_diagnostics();
    proof {
        assert(r@ == diags + own);
        assert forall|i: int|
            0 <= i < program.statements@.len() && crate::checker::is_mismatched_let(
                #[trigger] program.statements@[i],
            ) implies crate::diagnostics::has_code(
            r@,
            crate::diagnostic::ErrorCode { category: 'T', number: 1u16 },
        ) by {
            assert(crate::diagnostics::has_code(
                diags,
                crate::diagnostic::ErrorCode { category: 'T', number: 1u16 },
            ));
            let w = choose|w: int|
                0 <= w < diags.len() && (#[trigger] diags[w]).code == Some(
                    crate::diagnostic::ErrorCode { category: 'T', number: 1u16 },
                );
            assert(r@[w] == diags[w]);
            assert(r@[w].code == Some(
                crate::diagnostic::ErrorCode { category: 'T', number: 1u16 },
            ));
        }
    }
    r
}

} // verus!
