//! The type checker: two passes over the program. The first registers
//! every top-level declaration; the second checks every statement and
//! expression, invoking the ownership tracker as it goes and accumulating
//! diagnostics. A mismatch downgrades the offending expression to the
//! unknown type, so one error never cascades.

use vstd::prelude::*;

use crate::ast::{
    ApiDecl, BinOp, ClosureBody, ClosureParam, EnumVariantData, Expr, FnDecl, ImplTraitDecl,
    MatchArm, MethodReceiver, MiddlewareDecl, Pattern, Program, Stmt, StringPart, StructDecl,
    TraitDecl, Type, UnaryOp, VariantPatternData, WsDecl,
};
use crate::diagnostic::{Diagnostic, ErrorCode};
use crate::diagnostics::{diags_extended, has_code, Diagnostics};
use crate::ownership::OwnershipChecker;
use crate::semantic::SemanticContext;
use crate::span::Span;
use crate::symbols::{Symbol, SymbolKind};
use crate::text::{cat2, cat3, cat5, push_str, string_is};
use crate::types::{MendesType, StructDef};

verus! {

/// The main type checker: the ownership tracker, the accumulated
/// diagnostics, and the per-function checking state.
pub struct TypeChecker {
    /// The ownership checker, kept in lockstep with the symbol scopes.
    ownership: OwnershipChecker,
    /// Accumulated diagnostics.
    diagnostics: Diagnostics,
    /// The expected return type of the function being checked.
    current_return_type: Option<MendesType>,
    /// Whether checking is inside an async function.
    in_async: bool,
}

/// The fuel handed to the recursive checks; far more than any tree can
/// consume.
fn check_fuel() -> (r: u64)
    ensures
        r > 1,
{
    0x0100_0000
}

/// One checking step only extends the accumulated diagnostics, both the
/// checker's own and the ownership tracker's: nothing already reported is
/// dropped or rewritten.
pub open spec fn checker_extended(pre: TypeChecker, post: TypeChecker) -> bool {
    &&& diags_extended(pre.spec_diags(), post.spec_diags())
    &&& diags_extended(pre.spec_own_diags(), post.spec_own_diags())
}

/// A let statement whose annotation is the integer type but whose
/// initializer is a string literal: the simplest guaranteed type mismatch.
pub open spec fn is_mismatched_let(stmt: Stmt) -> bool {
    stmt matches Stmt::Let { ty, value, .. } && ty matches Some(t) && t is Int && value
        matches Expr::StringLit(_, _)
}

impl TypeChecker {
    /// The depth of the ownership scope stack.
    pub closed spec fn own_depth(&self) -> nat {
        self.ownership.spec_depth()
    }

    /// The checker's own accumulated diagnostics.
    pub closed spec fn spec_diags(&self) -> Seq<Diagnostic> {
        self.diagnostics@
    }

    /// The ownership tracker's accumulated diagnostics.
    pub closed spec fn spec_own_diags(&self) -> Seq<Diagnostic> {
        self.ownership.spec_diagnostics()
    }

    #[verifier::loop_isolation(false)]
    pub fn new() -> (r: Self)
        ensures
            r.own_depth() == 1,
            r.spec_diags() =~= Seq::<Diagnostic>::empty(),
            r.spec_own_diags() =~= Seq::<Diagnostic>::empty(),
    {
        TypeChecker {
            ownership: OwnershipChecker::new(),
            diagnostics: Diagnostics::new(),
            current_return_type: None,
            in_async: false,
        }
    }

    /// Moves the accumulated diagnostics out: the checker's own, followed
    /// by the ownership tracker's, leaving both empty.
    #[verifier::loop_isolation(false)]
    pub fn take_diagnostics(&mut self) -> (r: Diagnostics)
        ensures
            r@ == old(self).spec_diags() + old(self).spec_own_diags(),
            final(self).spec_diags() =~= Seq::<Diagnostic>::empty(),
            final(self).spec_own_diags() =~= Seq::<Diagnostic>::empty(),
    {
        let mut diags = self.diagnostics.take();
        let own = self.ownership.take_diagnostics();
        diags.append(own);
        diags
    }

    /// Analyzes the complete program: declarations first, then every
    /// statement. The scope stacks come back at the depth they started.
    #[verifier::loop_isolation(false)]
    pub fn check_program(&mut self, ctx: &mut SemanticContext, program: &Program)
        requires
            old(ctx).symbols.spec_depth() >= 1,
        ensures
            final(ctx).symbols.spec_depth() == old(ctx).symbols.spec_depth(),
            final(self).own_depth() == old(self).own_depth(),
            checker_extended(*old(self), *final(self)),
            forall|i: int|
                0 <= i < program.statements@.len() && is_mismatched_let(
                    #[trigger] program.statements@[i],
                ) ==> has_code(
                    final(self).spec_diags(),
                    ErrorCode { category: 'T', number: 1u16 },
                ),
            program.statements@.len() == 0 ==> (final(self).spec_diags() == old(
                self,
            ).spec_diags() && final(self).spec_own_diags() == old(self).spec_own_diags()),
    {
        let fuel = check_fuel();

        let mut i: usize = 0;
        while i < program.statements.len()
            invariant
                i <= program.statements@.len(),
                ctx.symbols.spec_depth() == old(ctx).symbols.spec_depth(),
                self.own_depth() == old(self).own_depth(),
                checker_extended(*old(self), *self),
                i == 0 ==> (self.spec_diags() == old(self).spec_diags() && self.spec_own_diags()
                    == old(self).spec_own_diags()),
            decreases program.statements@.len() - i,
        {
            self.register_declarations(ctx, &program.statements[i]);
            i = i + 1;
        }

        let mut j: usize = 0;
        while j < program.statements.len()
            invariant
                fuel > 1,
                j <= program.statements@.len(),
                ctx.symbols.spec_depth() == old(ctx).symbols.spec_depth(),
                self.own_depth() == old(self).own_depth(),
                checker_extended(*old(self), *self),
                j == 0 && program.statements@.len() == 0 ==> (self.spec_diags() == old(
                    self,
                ).spec_diags() && self.spec_own_diags() == old(self).spec_own_diags()),
                forall|k: int|
                    0 <= k < j && is_mismatched_let(#[trigger] program.statements@[k])
                        ==> has_code(
                        self.spec_diags(),
                        ErrorCode { category: 'T', number: 1u16 },
                    ),
            decreases program.statements@.len() - j,
        {
            let ghost pre = *self;
            self.check_statement(ctx, &program.statements[j], fuel);
            proof {
                assert forall|k: int|
                    0 <= k < j + 1 && is_mismatched_let(
                        #[trigger] program.statements@[k],
                    ) implies has_code(
                    self.spec_diags(),
                    ErrorCode { category: 'T', number: 1u16 },
                ) by {
                    if k < j {
                        let w = choose|w: int|
                            0 <= w < pre.spec_diags().len() && (#[trigger] pre.spec_diags()[
                                w
                            ]).code == Some(ErrorCode { category: 'T', number: 1u16 });
                        assert(self.spec_diags()[w].code == Some(
                            ErrorCode { category: 'T', number: 1u16 },
                        ));
                    } else {
                        assert(self.spec_diags().last().code == Some(
                            ErrorCode { category: 'T', number: 1u16 },
                        ));
                    }
                }
            }
            j = j + 1;
        }
    }

    /// First pass: registers structs, enums, functions, databases and
    /// middlewares so forward references succeed.
    #[verifier::loop_isolation(false)]
    fn register_declarations(&mut self, ctx: &mut SemanticContext, stmt: &Stmt)
        requires
            old(ctx).symbols.spec_depth() >= 1,
        ensures
            final(ctx).symbols.spec_depth() == old(ctx).symbols.spec_depth(),
            final(self).own_depth() == old(self).own_depth(),
            checker_extended(*old(self), *final(self)),
            stmt matches Stmt::Struct(s) ==> (final(ctx).symbols.spec_lookup(s.name@)
                matches Some(sym) && sym.kind matches SymbolKind::Struct { fields, is_copy, .. }
                && is_copy == s.is_copy && fields@.len() == s.fields@.len()),
            stmt matches Stmt::Enum(e) ==> (final(ctx).symbols.spec_lookup(e.name@)
                matches Some(sym) && sym.kind matches SymbolKind::Enum { variants }
                && variants@.len() == e.variants@.len()),
            stmt matches Stmt::Fn(f) ==> (final(ctx).symbols.spec_lookup(f.name@)
                matches Some(sym) && sym.kind matches SymbolKind::Function {
                    params, is_async, ..
                } && is_async == f.is_async && params@.len() == f.params@.len()),
            stmt matches Stmt::Db(db) ==> (final(ctx).symbols.spec_lookup(db.name@)
                matches Some(sym) && sym.kind matches SymbolKind::Database { pool_size, .. }
                && pool_size == db.pool_size),
            stmt matches Stmt::Middleware(m) ==> (final(ctx).symbols.spec_lookup(m.name@)
                matches Some(sym) && sym.kind is Middleware),
    {
        match stmt {
            Stmt::Struct(s) => {
                let mut fields: Vec<(String, MendesType)> = Vec::new();
                let mut fi: usize = 0;
                while fi < s.fields.len()
                    invariant
                        fi <= s.fields@.len(),
                        fields@.len() == fi,
                    decreases s.fields@.len() - fi,
                {
                    fields.push(
                        (s.fields[fi].name.clone(), MendesType::from_ast(&s.fields[fi].ty)),
                    );
                    fi = fi + 1;
                }

                let mut methods: Vec<(String, Vec<(String, MendesType)>, MendesType, bool)> =
                    Vec::new();
                let mut mi: usize = 0;
                while mi < s.methods.len()
                    invariant
                        mi <= s.methods@.len(),
                    decreases s.methods@.len() - mi,
                {
                    let mut params: Vec<(String, MendesType)> = Vec::new();
                    let mut pi: usize = 0;
                    while pi < s.methods[mi].params.len()
                        invariant
                            mi < s.methods@.len(),
                            pi <= s.methods@[mi as int].params@.len(),
                        decreases s.methods@[mi as int].params@.len() - pi,
                    {
                        params.push(
                            (
                                s.methods[mi].params[pi].name.clone(),
                                MendesType::from_ast(&s.methods[mi].params[pi].ty),
                            ),
                        );
                        pi = pi + 1;
                    }
                    let return_type = match &s.methods[mi].return_type {
                        Some(rt) => MendesType::from_ast(rt),
                        None => MendesType::Unit,
                    };
                    methods.push(
                        (s.methods[mi].name.clone(), params, return_type, s.methods[mi].is_async),
                    );
                    mi = mi + 1;
                }

                ctx.types.register_struct(
                    StructDef {
                        name: s.name.clone(),
                        fields: fields.clone(),
                        methods: methods.clone(),
                        is_copy: s.is_copy,
                    },
                );

                ctx.symbols.define(
                    Symbol {
                        name: s.name.clone(),
                        kind: SymbolKind::Struct { fields, methods, is_copy: s.is_copy },
                        ty: MendesType::Named(s.name.clone()),
                        mutable: false,
                        defined_at: Some(s.span),
                    },
                );
            },
            Stmt::Enum(e) => {
                let mut variants: Vec<(String, Vec<MendesType>)> = Vec::new();
                let mut vi: usize = 0;
                while vi < e.variants.len()
                    invariant
                        vi <= e.variants@.len(),
                        variants@.len() == vi,
                    decreases e.variants@.len() - vi,
                {
                    let mut data: Vec<MendesType> = Vec::new();
                    match &e.variants[vi].data {
                        EnumVariantData::Unit => {},
                        EnumVariantData::Tuple(types) => {
                            let mut ti: usize = 0;
                            while ti < types.len()
                                invariant
                                    ti <= types@.len(),
                                decreases types@.len() - ti,
                            {
                                data.push(MendesType::from_ast(&types[ti]));
                                ti = ti + 1;
                            }
                        },
                        EnumVariantData::Struct(fields) => {
                            let mut ti: usize = 0;
                            while ti < fields.len()
                                invariant
                                    ti <= fields@.len(),
                                decreases fields@.len() - ti,
                            {
                                data.push(MendesType::from_ast(&fields[ti].ty));
                                ti = ti + 1;
                            }
                        },
                    }
                    variants.push((e.variants[vi].name.clone(), data));
                    vi = vi + 1;
                }

                ctx.symbols.define(
                    Symbol {
                        name: e.name.clone(),
                        kind: SymbolKind::Enum { variants },
                        ty: MendesType::Named(e.name.clone()),
                        mutable: false,
                        defined_at: Some(e.span),
                    },
                );
            },
            Stmt::Fn(func) => {
                let mut generic_params: Vec<String> = Vec::new();
                let mut gi: usize = 0;
                while gi < func.generic_params.len()
                    invariant
                        gi <= func.generic_params@.len(),
                    decreases func.generic_params@.len() - gi,
                {
                    generic_params.push(func.generic_params[gi].name.clone());
                    gi = gi + 1;
                }

                let mut params: Vec<(String, MendesType)> = Vec::new();
                let mut param_types: Vec<MendesType> = Vec::new();
                let mut pi: usize = 0;
                while pi < func.params.len()
                    invariant
                        pi <= func.params@.len(),
                        params@.len() == pi,
                    decreases func.params@.len() - pi,
                {
                    let ty = MendesType::from_ast(&func.params[pi].ty);
                    param_types.push(ty.clone());
                    params.push((func.params[pi].name.clone(), ty));
                    pi = pi + 1;
                }
                let return_type = match &func.return_type {
                    Some(rt) => MendesType::from_ast(rt),
                    None => MendesType::Unit,
                };

                ctx.symbols.define(
                    Symbol {
                        name: func.name.clone(),
                        kind: SymbolKind::Function {
                            generic_params,
                            params,
                            return_type: return_type.clone(),
                            is_async: func.is_async,
                        },
                        ty: MendesType::Function {
                            params: param_types,
                            ret: Box::new(return_type),
                        },
                        mutable: false,
                        defined_at: Some(func.span),
                    },
                );

            },
            Stmt::Db(db) => {
                let db_type: &str = match db.db_type {
                    crate::ast::DbType::Postgres => "postgres",
                    crate::ast::DbType::Mysql => "mysql",
                    crate::ast::DbType::Sqlite => "sqlite",
                };
                let type_label: &str = match db.db_type {
                    crate::ast::DbType::Postgres => "Database<Postgres>",
                    crate::ast::DbType::Mysql => "Database<Mysql>",
                    crate::ast::DbType::Sqlite => "Database<Sqlite>",
                };
                ctx.symbols.define(
                    Symbol {
                        name: db.name.clone(),
                        kind: SymbolKind::Database {
                            db_type: db_type.to_owned(),
                            pool_size: db.pool_size,
                        },
                        ty: MendesType::Named(type_label.to_owned()),
                        mutable: false,
                        defined_at: Some(db.span),
                    },
                );
            },
            Stmt::Middleware(m) => {
                ctx.symbols.define(
                    Symbol {
                        name: m.name.clone(),
                        kind: SymbolKind::Middleware,
                        ty: MendesType::Function {
                            params: Vec::new(),
                            ret: Box::new(MendesType::Unit),
                        },
                        mutable: false,
                        defined_at: Some(m.span),
                    },
                );
            },
            _ => {},
        }
    }

    /// Checks one statement. A let whose annotation and initializer are
    /// plainly incompatible adds exactly one type-mismatch error and no
    /// ownership diagnostic.
    #[verifier::loop_isolation(false)]
    fn check_statement(&mut self, ctx: &mut SemanticContext, stmt: &Stmt, fuel: u64)
        requires
            old(ctx).symbols.spec_depth() >= 1,
        ensures
            final(ctx).symbols.spec_depth() == old(ctx).symbols.spec_depth(),
            final(self).own_depth() == old(self).own_depth(),
            checker_extended(*old(self), *final(self)),
            fuel > 1 && is_mismatched_let(*stmt) ==> {
                &&& final(self).spec_diags().len() == old(self).spec_diags().len() + 1
                &&& final(self).spec_diags().last().code == Some(
                    ErrorCode { category: 'T', number: 1u16 },
                )
                &&& final(self).spec_diags().last().level is Error
                &&& final(self).spec_own_diags() == old(self).spec_own_diags()
            },
        decreases fuel,
    {
        if fuel == 0 {
            return;
        }
        let f = fuel - 1;
        match stmt {
            Stmt::Import { .. } => {},
            Stmt::FromImport { .. } => {},
            Stmt::Let { name, ty, value, mutable, span } => {
                self.check_let(ctx, name, ty, value, *mutable, *span, f);
            },
            Stmt::Fn(func) => {
                self.check_fn(ctx, func, f);
            },
            Stmt::Struct(s) => {
                self.check_struct(ctx, s);
            },
            Stmt::Enum(e) => {
                self.check_enum(ctx, e);
            },
            Stmt::Api(api) => {
                self.check_api(ctx, api, f);
            },
            Stmt::WebSocket(ws) => {
                self.check_websocket(ctx, ws, f);
            },
            Stmt::Server(_) => {},
            Stmt::Middleware(m) => {
                self.check_middleware(ctx, m, f);
            },
            Stmt::Db(_) => {},
            Stmt::If { condition, then_block, else_block, span: _ } => {
                self.check_if(ctx, condition, then_block, else_block, f);
            },
            Stmt::For { var, iter, body, span } => {
                self.check_for(ctx, var, iter, body, *span, f);
            },
            Stmt::While { condition, body, span: _ } => {
                self.check_while(ctx, condition, body, f);
            },
            Stmt::Return { value, span } => {
                self.check_return(ctx, value, *span, f);
            },
            Stmt::Expr(expr) => {
                self.check_expr(ctx, expr, f);
            },
            Stmt::Trait(t) => {
                self.check_trait(ctx, t);
            },
            Stmt::ImplTrait(i) => {
                self.check_impl_trait(ctx, i, f);
            },
            Stmt::TypeAlias { name, ty, span } => {
                self.check_type_alias(ctx, name, ty, *span);
            },
            Stmt::Break { span: _ } => {},
            Stmt::Continue { span: _ } => {},
        }
    }

    /// Checks a trait declaration: it is registered, and its signatures'
    /// types are converted.
    #[verifier::loop_isolation(false)]
    fn check_trait(&mut self, ctx: &mut SemanticContext, t: &TraitDecl)
        ensures
            final(ctx).symbols.spec_depth() == old(ctx).symbols.spec_depth(),
            final(self).own_depth() == old(self).own_depth(),
            checker_extended(*old(self), *final(self)),
    {
        ctx.symbols.define(
            Symbol::new(
                t.name.clone(),
                MendesType::Named(t.name.clone()),
                SymbolKind::Trait,
                t.span,
            ),
        );
    }

    /// Checks a trait implementation: the target type and the trait must be
    /// known, and each method body is checked in its own scope.
    #[verifier::loop_isolation(false)]
    fn check_impl_trait(&mut self, ctx: &mut SemanticContext, i: &ImplTraitDecl, fuel: u64)
        requires
            old(ctx).symbols.spec_depth() >= 1,
        ensures
            final(ctx).symbols.spec_depth() == old(ctx).symbols.spec_depth(),
            final(self).own_depth() == old(self).own_depth(),
            checker_extended(*old(self), *final(self)),
        decreases fuel,
    {
        if fuel == 0 {
            return;
        }
        let f = fuel - 1;
        if matches!(ctx.symbols.lookup(i.target_type.as_str()), Option::<&Symbol>::None) {
            let msg = cat3("type `", i.target_type.as_str(), "` not found");
            self.diagnostics.push(
                Diagnostic::error(msg.as_str()).with_code(ErrorCode::unknown_type()).with_label(
                    i.span,
                    "implementing trait for unknown type",
                ),
            );
        }

        if matches!(ctx.symbols.lookup(i.trait_name.as_str()), Option::<&Symbol>::None) {
            let msg = cat3("trait `", i.trait_name.as_str(), "` not found");
            self.diagnostics.push(
                Diagnostic::error(msg.as_str()).with_code(ErrorCode::unknown_type()).with_label(
                    i.span,
                    "unknown trait",
                ),
            );
        }

        let mut mi: usize = 0;
        while mi < i.methods.len()
            invariant
                mi <= i.methods@.len(),
                ctx.symbols.spec_depth() == old(ctx).symbols.spec_depth(),
                self.own_depth() == old(self).own_depth(),
                checker_extended(*old(self), *self),
                f < fuel,
            decreases i.methods@.len() - mi,
        {
            ctx.symbols.push_scope();
            self.ownership.push_scope();

            let method = &i.methods[mi];
            let self_type = MendesType::Named(i.target_type.clone());
            match method.receiver {
                MethodReceiver::Ref => {
                    ctx.symbols.define(
                        Symbol::variable(
                            "self".to_owned(),
                            MendesType::Ref(Box::new(self_type)),
                            false,
                            method.span,
                        ),
                    );
                },
                MethodReceiver::MutRef => {
                    ctx.symbols.define(
                        Symbol::variable(
                            "self".to_owned(),
                            MendesType::MutRef(Box::new(self_type)),
                            false,
                            method.span,
                        ),
                    );
                },
                MethodReceiver::Value => {
                    ctx.symbols.define(
                        Symbol::variable("self".to_owned(), self_type, false, method.span),
                    );
                },
            }

            let mut pi: usize = 0;
            while pi < i.methods[mi].params.len()
                invariant
                    mi < i.methods@.len(),
                    pi <= i.methods@[mi as int].params@.len(),
                    ctx.symbols.spec_depth() == old(ctx).symbols.spec_depth() + 1,
                    self.own_depth() == old(self).own_depth() + 1,
                    checker_extended(*old(self), *self),
                decreases i.methods@[mi as int].params@.len() - pi,
            {
                let ty = MendesType::from_ast(&i.methods[mi].params[pi].ty);
                ctx.symbols.define(
                    Symbol::parameter(
                        i.methods[mi].params[pi].name.clone(),
                        ty,
                        i.methods[mi].params[pi].span,
                    ),
                );
                pi = pi + 1;
            }

            let mut si: usize = 0;
            while si < i.methods[mi].body.len()
                invariant
                    mi < i.methods@.len(),
                    si <= i.methods@[mi as int].body@.len(),
                    ctx.symbols.spec_depth() == old(ctx).symbols.spec_depth() + 1,
                    self.own_depth() == old(self).own_depth() + 1,
                    checker_extended(*old(self), *self),
                    f < fuel,
                decreases i.methods@[mi as int].body@.len() - si,
            {
                self.check_statement(ctx, &i.methods[mi].body[si], f);
                si = si + 1;
            }

            self.ownership.pop_scope();
            ctx.symbols.pop_scope();

            mi = mi + 1;
        }
    }

    /// Checks a type alias: the alias is registered under its name.
    #[verifier::loop_isolation(false)]
    fn check_type_alias(&mut self, ctx: &mut SemanticContext, name: &String, ty: &Type, span: Span)
        ensures
            final(ctx).symbols.spec_depth() == old(ctx).symbols.spec_depth(),
            final(self).own_depth() == old(self).own_depth(),
            checker_extended(*old(self), *final(self)),
    {
        let mendes_type = MendesType::from_ast(ty);
        ctx.symbols.define(
            Symbol::new(name.clone(), mendes_type, SymbolKind::TypeAlias, span),
        );
    }

    /// Checks a let declaration: the initializer must be compatible with
    /// the declared type, and the variable enters both trackers.
    #[verifier::loop_isolation(false)]
    fn check_let(
        &mut self,
        ctx: &mut SemanticContext,
        name: &String,
        ty: &Option<Type>,
        value: &Expr,
        mutable: bool,
        span: Span,
        fuel: u64,
    )
        requires
            old(ctx).symbols.spec_depth() >= 1,
        ensures
            final(ctx).symbols.spec_depth() == old(ctx).symbols.spec_depth(),
            final(self).own_depth() == old(self).own_depth(),
            checker_extended(*old(self), *final(self)),
            (fuel > 0 && (*ty matches Some(t) && t is Int) && (value matches Expr::StringLit(
                _,
                _,
            ))) ==> {
                &&& final(self).spec_diags().len() == old(self).spec_diags().len() + 1
                &&& final(self).spec_diags().last().code == Some(
                    ErrorCode { category: 'T', number: 1u16 },
                )
                &&& final(self).spec_diags().last().level is Error
                &&& final(self).spec_own_diags() == old(self).spec_own_diags()
            },
        decreases fuel,
    {
        if fuel == 0 {
            return;
        }
        let f = fuel - 1;
        let value_type = self.check_expr(ctx, value, f);

        let final_type: MendesType = match ty {
            Some(t) => {
                let declared = MendesType::from_ast(t);
                if !declared.is_compatible_with(&value_type) {
                    let dt = declared.to_text();
                    let vt = value_type.to_text();
                    let msg = cat5(
                        "incompatible type: expected `",
                        dt.as_str(),
                        "`, found `",
                        vt.as_str(),
                        "`",
                    );
                    self.diagnostics.push(
                        Diagnostic::error(msg.as_str()).with_code(ErrorCode::type_mismatch())
                            .with_label(span, "incompatible types here"),
                    );
                }
                declared
            },
            None => value_type,
        };

        ctx.symbols.define(Symbol::variable(name.clone(), final_type.clone(), mutable, span));
        self.ownership.define(name.clone(), final_type, mutable, span);
    }

    /// Checks a function declaration: parameters and generics enter a fresh
    /// scope, the body is checked, and the scopes are popped again.
    #[verifier::loop_isolation(false)]
    fn check_fn(&mut self, ctx: &mut SemanticContext, func: &FnDecl, fuel: u64)
        requires
            old(ctx).symbols.spec_depth() >= 1,
        ensures
            final(ctx).symbols.spec_depth() == old(ctx).symbols.spec_depth(),
            final(self).own_depth() == old(self).own_depth(),
            checker_extended(*old(self), *final(self)),
        decreases fuel,
    {
        if fuel == 0 {
            return;
        }
        let f = fuel - 1;
        ctx.symbols.push_scope();
        self.ownership.push_scope();

        let mut gi: usize = 0;
        while gi < func.generic_params.len()
            invariant
                gi <= func.generic_params@.len(),
                ctx.symbols.spec_depth() == old(ctx).symbols.spec_depth() + 1,
                self.own_depth() == old(self).own_depth() + 1,
                checker_extended(*old(self), *self),
            decreases func.generic_params@.len() - gi,
        {
            ctx.types.register_generic_param(func.generic_params[gi].name.as_str());
            gi = gi + 1;
        }

        let mut pi: usize = 0;
        while pi < func.params.len()
            invariant
                pi <= func.params@.len(),
                ctx.symbols.spec_depth() == old(ctx).symbols.spec_depth() + 1,
                self.own_depth() == old(self).own_depth() + 1,
                checker_extended(*old(self), *self),
            decreases func.params@.len() - pi,
        {
            let ty = MendesType::from_ast(&func.params[pi].ty);
            ctx.symbols.define(
                Symbol::parameter(func.params[pi].name.clone(), ty.clone(), func.params[pi].span),
            );
            self.ownership.define(
                func.params[pi].name.clone(),
                ty,
                false,
                func.params[pi].span,
            );
            pi = pi + 1;
        }

        let return_type = match &func.return_type {
            Some(rt) => MendesType::from_ast(rt),
            None => MendesType::Unit,
        };
        self.current_return_type = Some(return_type);

        if func.is_async {
            self.in_async = true;
            self.ownership.enter_async();
        }

        let mut si: usize = 0;
        while si < func.body.len()
            invariant
                si <= func.body@.len(),
                ctx.symbols.spec_depth() == old(ctx).symbols.spec_depth() + 1,
                self.own_depth() == old(self).own_depth() + 1,
                checker_extended(*old(self), *self),
                f < fuel,
            decreases func.body@.len() - si,
        {
            self.check_statement(ctx, &func.body[si], f);
            si = si + 1;
        }

        if func.is_async {
            self.in_async = false;
            self.ownership.exit_async();
        }

        self.current_return_type = None;

        let mut gj: usize = 0;
        while gj < func.generic_params.len()
            invariant
                gj <= func.generic_params@.len(),
                ctx.symbols.spec_depth() == old(ctx).symbols.spec_depth() + 1,
                self.own_depth() == old(self).own_depth() + 1,
                checker_extended(*old(self), *self),
            decreases func.generic_params@.len() - gj,
        {
            ctx.types.unregister_generic_param(func.generic_params[gj].name.as_str());
            gj = gj + 1;
        }

        self.ownership.pop_scope();
        ctx.symbols.pop_scope();
    }

    /// Checks a struct declaration: every field's type must exist.
    #[verifier::loop_isolation(false)]
    fn check_struct(&mut self, ctx: &mut SemanticContext, s: &StructDecl)
        ensures
            final(ctx).symbols.spec_depth() == old(ctx).symbols.spec_depth(),
            final(self).own_depth() == old(self).own_depth(),
            checker_extended(*old(self), *final(self)),
    {
        let mut gi: usize = 0;
        while gi < s.generic_params.len()
            invariant
                gi <= s.generic_params@.len(),
                ctx.symbols.spec_depth() == old(ctx).symbols.spec_depth(),
                self.own_depth() == old(self).own_depth(),
                checker_extended(*old(self), *self),
            decreases s.generic_params@.len() - gi,
        {
            ctx.types.register_generic_param(s.generic_params[gi].name.as_str());
            gi = gi + 1;
        }

        let mut fi: usize = 0;
        while fi < s.fields.len()
            invariant
                fi <= s.fields@.len(),
                ctx.symbols.spec_depth() == old(ctx).symbols.spec_depth(),
                self.own_depth() == old(self).own_depth(),
                checker_extended(*old(self), *self),
            decreases s.fields@.len() - fi,
        {
            let ty = MendesType::from_ast(&s.fields[fi].ty);
            if !ctx.types.type_exists(&ty) {
                let tt = ty.to_text();
                let msg = cat3("unknown type: `", tt.as_str(), "`");
                self.diagnostics.push(
                    Diagnostic::error(msg.as_str()).with_code(ErrorCode::unknown_type())
                        .with_label(s.fields[fi].span, "type not found"),
                );
            }
            fi = fi + 1;
        }

        let mut gj: usize = 0;
        while gj < s.generic_params.len()
            invariant
                gj <= s.generic_params@.len(),
                ctx.symbols.spec_depth() == old(ctx).symbols.spec_depth(),
                self.own_depth() == old(self).own_depth(),
                checker_extended(*old(self), *self),
            decreases s.generic_params@.len() - gj,
        {
            ctx.types.unregister_generic_param(s.generic_params[gj].name.as_str());
            gj = gj + 1;
        }
    }

    /// Checks an enum declaration: every variant's payload types must
    /// exist.
    #[verifier::loop_isolation(false)]
    fn check_enum(&mut self, ctx: &mut SemanticContext, e: &crate::ast::EnumDecl)
        ensures
            final(ctx).symbols.spec_depth() == old(ctx).symbols.spec_depth(),
            final(self).own_depth() == old(self).own_depth(),
            checker_extended(*old(self), *final(self)),
    {
        let mut vi: usize = 0;
        while vi < e.variants.len()
            invariant
                vi <= e.variants@.len(),
                ctx.symbols.spec_depth() == old(ctx).symbols.spec_depth(),
                self.own_depth() == old(self).own_depth(),
                checker_extended(*old(self), *self),
            decreases e.variants@.len() - vi,
        {
            let vspan = e.variants[vi].span;
            match &e.variants[vi].data {
                EnumVariantData::Unit => {},
                EnumVariantData::Tuple(types) => {
                    let mut ti: usize = 0;
                    while ti < types.len()
                        invariant
                            ti <= types@.len(),
                            ctx.symbols.spec_depth() == old(ctx).symbols.spec_depth(),
                            self.own_depth() == old(self).own_depth(),
                            checker_extended(*old(self), *self),
                        decreases types@.len() - ti,
                    {
                        let mendes_ty = MendesType::from_ast(&types[ti]);
                        if !ctx.types.type_exists(&mendes_ty) {
                            let tt = mendes_ty.to_text();
                            let msg = cat3("unknown type: `", tt.as_str(), "`");
                            self.diagnostics.push(
                                Diagnostic::error(msg.as_str()).with_code(
                                    ErrorCode::unknown_type(),
                                ).with_label(vspan, "type not found"),
                            );
                        }
                        ti = ti + 1;
                    }
                },
                EnumVariantData::Struct(fields) => {
                    let mut ti: usize = 0;
                    while ti < fields.len()
                        invariant
                            ti <= fields@.len(),
                            ctx.symbols.spec_depth() == old(ctx).symbols.spec_depth(),
                            self.own_depth() == old(self).own_depth(),
                            checker_extended(*old(self), *self),
                        decreases fields@.len() - ti,
                    {
                        let mendes_ty = MendesType::from_ast(&fields[ti].ty);
                        if !ctx.types.type_exists(&mendes_ty) {
                            let tt = mendes_ty.to_text();
                            let msg = cat3("unknown type: `", tt.as_str(), "`");
                            self.diagnostics.push(
                                Diagnostic::error(msg.as_str()).with_code(
                                    ErrorCode::unknown_type(),
                                ).with_label(fields[ti].span, "type not found"),
                            );
                        }
                        ti = ti + 1;
                    }
                },
            }
            vi = vi + 1;
        }
    }

    /// Checks an API declaration: the body and path parameters enter a
    /// fresh scope and the handler is checked.
    #[verifier::loop_isolation(false)]
    fn check_api(&mut self, ctx: &mut SemanticContext, api: &ApiDecl, fuel: u64)
        requires
            old(ctx).symbols.spec_depth() >= 1,
        ensures
            final(ctx).symbols.spec_depth() == old(ctx).symbols.spec_depth(),
            final(self).own_depth() == old(self).own_depth(),
            checker_extended(*old(self), *final(self)),
        decreases fuel,
    {
        if fuel == 0 {
            return;
        }
        let f = fuel - 1;
        ctx.symbols.push_scope();
        self.ownership.push_scope();

        match &api.body_type {
            Some(body_type) => {
                let ty = MendesType::from_ast(body_type);
                ctx.symbols.define(
                    Symbol::parameter("body".to_owned(), ty.clone(), api.span),
                );
                self.ownership.define("body".to_owned(), ty, false, api.span);
            },
            None => {},
        }

        self.register_path_params(ctx, api.path.as_str(), api.span);

        let return_type = match &api.return_type {
            Some(rt) => MendesType::from_ast(rt),
            None => MendesType::Unit,
        };
        self.current_return_type = Some(return_type);

        if api.is_async {
            self.in_async = true;
            self.ownership.enter_async();
        }

        let mut si: usize = 0;
        while si < api.handler.len()
            invariant
                si <= api.handler@.len(),
                ctx.symbols.spec_depth() == old(ctx).symbols.spec_depth() + 1,
                self.own_depth() == old(self).own_depth() + 1,
                checker_extended(*old(self), *self),
                f < fuel,
            decreases api.handler@.len() - si,
        {
            self.check_statement(ctx, &api.handler[si], f);
            si = si + 1;
        }

        if api.is_async {
            self.in_async = false;
            self.ownership.exit_async();
        }

        self.current_return_type = None;
        self.ownership.pop_scope();
        ctx.symbols.pop_scope();
    }

    /// Checks a WebSocket declaration: each declared handler is checked in
    /// its own scope, with the connection and message variables available.
    #[verifier::loop_isolation(false)]
    fn check_websocket(&mut self, ctx: &mut SemanticContext, ws: &WsDecl, fuel: u64)
        requires
            old(ctx).symbols.spec_depth() >= 1,
        ensures
            final(ctx).symbols.spec_depth() == old(ctx).symbols.spec_depth(),
            final(self).own_depth() == old(self).own_depth(),
            checker_extended(*old(self), *final(self)),
        decreases fuel,
    {
        if fuel == 0 {
            return;
        }
        let f = fuel - 1;
        ctx.symbols.push_scope();
        self.ownership.push_scope();

        self.register_path_params(ctx, ws.path.as_str(), ws.span);

        ctx.symbols.define(
            Symbol::variable(
                "conn".to_owned(),
                MendesType::Named("WsConnection".to_owned()),
                false,
                ws.span,
            ),
        );

        match &ws.on_connect {
            Some(handler) => {
                ctx.symbols.push_scope();
                let mut si: usize = 0;
                while si < handler.len()
                    invariant
                        si <= handler@.len(),
                        ctx.symbols.spec_depth() == old(ctx).symbols.spec_depth() + 2,
                        self.own_depth() == old(self).own_depth() + 1,
                        checker_extended(*old(self), *self),
                        f < fuel,
                    decreases handler@.len() - si,
                {
                    self.check_statement(ctx, &handler[si], f);
                    si = si + 1;
                }
                ctx.symbols.pop_scope();
            },
            None => {},
        }

        match &ws.on_message {
            Some(handler) => {
                ctx.symbols.push_scope();
                ctx.symbols.define(
                    Symbol::variable("message".to_owned(), MendesType::String, false, ws.span),
                );
                let mut si: usize = 0;
                while si < handler.len()
                    invariant
                        si <= handler@.len(),
                        ctx.symbols.spec_depth() == old(ctx).symbols.spec_depth() + 2,
                        self.own_depth() == old(self).own_depth() + 1,
                        checker_extended(*old(self), *self),
                        f < fuel,
                    decreases handler@.len() - si,
                {
                    self.check_statement(ctx, &handler[si], f);
                    si = si + 1;
                }
                ctx.symbols.pop_scope();
            },
            None => {},
        }

        match &ws.on_disconnect {
            Some(handler) => {
                ctx.symbols.push_scope();
                let mut si: usize = 0;
                while si < handler.len()
                    invariant
                        si <= handler@.len(),
                        ctx.symbols.spec_depth() == old(ctx).symbols.spec_depth() + 2,
                        self.own_depth() == old(self).own_depth() + 1,
                        checker_extended(*old(self), *self),
                        f < fuel,
                    decreases handler@.len() - si,
                {
                    self.check_statement(ctx, &handler[si], f);
                    si = si + 1;
                }
                ctx.symbols.pop_scope();
            },
            None => {},
        }

        self.ownership.pop_scope();
        ctx.symbols.pop_scope();
    }

    /// Registers the parameters declared in a route path, such as
    /// `{id:int}`, in both trackers.
    #[verifier::loop_isolation(false)]
    fn register_path_params(&mut self, ctx: &mut SemanticContext, path: &str, span: Span)
        requires
            old(ctx).symbols.spec_depth() >= 1,
        ensures
            final(ctx).symbols.spec_depth() == old(ctx).symbols.spec_depth(),
            final(self).own_depth() == old(self).own_depth(),
            checker_extended(*old(self), *final(self)),
    {
        let chars = crate::text::str_chars(path);
        let n = chars.len();
        let mut i: usize = 0;
        while i < n
            invariant
                n == chars@.len(),
                i <= n,
                ctx.symbols.spec_depth() == old(ctx).symbols.spec_depth(),
                self.own_depth() == old(self).own_depth(),
                checker_extended(*old(self), *self),
            decreases n - i,
        {
            let c = chars[i];
            i = i + 1;
            if c == '{' {
                let mut param: Vec<char> = Vec::new();
                let mut ty_str: Vec<char> = Vec::new();
                let mut in_type = false;

                let ghost i0 = i;
                while i < n
                    invariant
                        n == chars@.len(),
                        i0 <= i <= n,
                    decreases n - i,
                {
                    let c2 = chars[i];
                    i = i + 1;
                    if c2 == '}' {
                        break;
                    } else if c2 == ':' {
                        in_type = true;
                    } else if in_type {
                        ty_str.push(c2);
                    } else {
                        param.push(c2);
                    }
                }

                if param.len() > 0 {
                    let pname = crate::text::chars_to_string(&param);
                    let tname = crate::text::chars_to_string(&ty_str);
                    let ty: MendesType = if string_is(&tname, "int") {
                        MendesType::Int
                    } else {
                        MendesType::String
                    };
                    ctx.symbols.define(Symbol::parameter(pname.clone(), ty.clone(), span));
                    self.ownership.define(pname, ty, false, span);
                }
            }
        }
    }

    /// Checks a middleware declaration: the request parameter is available
    /// in its body.
    #[verifier::loop_isolation(false)]
    fn check_middleware(&mut self, ctx: &mut SemanticContext, m: &MiddlewareDecl, fuel: u64)
        requires
            old(ctx).symbols.spec_depth() >= 1,
        ensures
            final(ctx).symbols.spec_depth() == old(ctx).symbols.spec_depth(),
            final(self).own_depth() == old(self).own_depth(),
            checker_extended(*old(self), *final(self)),
        decreases fuel,
    {
        if fuel == 0 {
            return;
        }
        let f = fuel - 1;
        ctx.symbols.push_scope();
        self.ownership.push_scope();

        ctx.symbols.define(
            Symbol::parameter(
                "request".to_owned(),
                MendesType::Named("Request".to_owned()),
                m.span,
            ),
        );

        let mut si: usize = 0;
        while si < m.body.len()
            invariant
                si <= m.body@.len(),
                ctx.symbols.spec_depth() == old(ctx).symbols.spec_depth() + 1,
                self.own_depth() == old(self).own_depth() + 1,
                checker_extended(*old(self), *self),
                f < fuel,
            decreases m.body@.len() - si,
        {
            self.check_statement(ctx, &m.body[si], f);
            si = si + 1;
        }

        self.ownership.pop_scope();
        ctx.symbols.pop_scope();
    }

    /// Checks an if statement: the condition must be boolean, and each
    /// branch gets its own scope.
    #[verifier::loop_isolation(false)]
    fn check_if(
        &mut self,
        ctx: &mut SemanticContext,
        condition: &Expr,
        then_block: &Vec<Stmt>,
        else_block: &Option<Vec<Stmt>>,
        fuel: u64,
    )
        requires
            old(ctx).symbols.spec_depth() >= 1,
        ensures
            final(ctx).symbols.spec_depth() == old(ctx).symbols.spec_depth(),
            final(self).own_depth() == old(self).own_depth(),
            checker_extended(*old(self), *final(self)),
        decreases fuel,
    {
        if fuel == 0 {
            return;
        }
        let f = fuel - 1;
        let cond_type = self.check_expr(ctx, condition, f);
        if !cond_type.is_compatible_with(&MendesType::Bool) {
            let tt = cond_type.to_text();
            let msg = cat3("condition must be `bool`, found `", tt.as_str(), "`");
            self.diagnostics.push(
                Diagnostic::error(msg.as_str()).with_code(ErrorCode::type_mismatch()).with_label(
                    condition.span(),
                    "expected bool",
                ),
            );
        }

        ctx.symbols.push_scope();
        self.ownership.push_scope();
        let mut si: usize = 0;
        while si < then_block.len()
            invariant
                si <= then_block@.len(),
                ctx.symbols.spec_depth() == old(ctx).symbols.spec_depth() + 1,
                self.own_depth() == old(self).own_depth() + 1,
                checker_extended(*old(self), *self),
                f < fuel,
            decreases then_block@.len() - si,
        {
            self.check_statement(ctx, &then_block[si], f);
            si = si + 1;
        }
        self.ownership.pop_scope();
        ctx.symbols.pop_scope();

        match else_block {
            Some(else_stmts) => {
                ctx.symbols.push_scope();
                self.ownership.push_scope();
                let mut sj: usize = 0;
                while sj < else_stmts.len()
                    invariant
                        sj <= else_stmts@.len(),
                        ctx.symbols.spec_depth() == old(ctx).symbols.spec_depth() + 1,
                        self.own_depth() == old(self).own_depth() + 1,
                        checker_extended(*old(self), *self),
                        f < fuel,
                    decreases else_stmts@.len() - sj,
                {
                    self.check_statement(ctx, &else_stmts[sj], f);
                    sj = sj + 1;
                }
                self.ownership.pop_scope();
                ctx.symbols.pop_scope();
            },
            None => {},
        }
    }

    /// Checks a for loop: the iterated expression must be iterable, and
    /// the loop variable is bound in a fresh scope.
    #[verifier::loop_isolation(false)]
    fn check_for(
        &mut self,
        ctx: &mut SemanticContext,
        var: &String,
        iter: &Expr,
        body: &Vec<Stmt>,
        span: Span,
        fuel: u64,
    )
        requires
            old(ctx).symbols.spec_depth() >= 1,
        ensures
            final(ctx).symbols.spec_depth() == old(ctx).symbols.spec_depth(),
            final(self).own_depth() == old(self).own_depth(),
            checker_extended(*old(self), *final(self)),
        decreases fuel,
    {
        if fuel == 0 {
            return;
        }
        let f = fuel - 1;
        let iter_type = self.check_expr(ctx, iter, f);

        let elem_type: MendesType = match iter_type {
            MendesType::Array(inner) => *inner,
            MendesType::Range(inner) => *inner,
            MendesType::String => MendesType::String,
            other => {
                let tt = other.to_text();
                let msg = cat3("expected iterable type, found `", tt.as_str(), "`");
                self.diagnostics.push(
                    Diagnostic::error(msg.as_str()).with_code(ErrorCode::type_mismatch())
                        .with_label(iter.span(), "not iterable"),
                );
                MendesType::Unknown
            },
        };

        ctx.symbols.push_scope();
        self.ownership.push_scope();

        ctx.symbols.define(Symbol::variable(var.clone(), elem_type.clone(), false, span));
        self.ownership.define(var.clone(), elem_type, false, span);

        let mut si: usize = 0;
        while si < body.len()
            invariant
                si <= body@.len(),
                ctx.symbols.spec_depth() == old(ctx).symbols.spec_depth() + 1,
                self.own_depth() == old(self).own_depth() + 1,
                checker_extended(*old(self), *self),
                f < fuel,
            decreases body@.len() - si,
        {
            self.check_statement(ctx, &body[si], f);
            si = si + 1;
        }

        self.ownership.pop_scope();
        ctx.symbols.pop_scope();
    }

    /// Checks a while loop: the condition must be boolean.
    #[verifier::loop_isolation(false)]
    fn check_while(
        &mut self,
        ctx: &mut SemanticContext,
        condition: &Expr,
        body: &Vec<Stmt>,
        fuel: u64,
    )
        requires
            old(ctx).symbols.spec_depth() >= 1,
        ensures
            final(ctx).symbols.spec_depth() == old(ctx).symbols.spec_depth(),
            final(self).own_depth() == old(self).own_depth(),
            checker_extended(*old(self), *final(self)),
        decreases fuel,
    {
        if fuel == 0 {
            return;
        }
        let f = fuel - 1;
        let cond_type = self.check_expr(ctx, condition, f);
        if !cond_type.is_compatible_with(&MendesType::Bool) {
            let tt = cond_type.to_text();
            let msg = cat3("condition must be `bool`, found `", tt.as_str(), "`");
            self.diagnostics.push(
                Diagnostic::error(msg.as_str()).with_code(ErrorCode::type_mismatch()).with_label(
                    condition.span(),
                    "expected bool",
                ),
            );
        }

        ctx.symbols.push_scope();
        self.ownership.push_scope();
        let mut si: usize = 0;
        while si < body.len()
            invariant
                si <= body@.len(),
                ctx.symbols.spec_depth() == old(ctx).symbols.spec_depth() + 1,
                self.own_depth() == old(self).own_depth() + 1,
                checker_extended(*old(self), *self),
                f < fuel,
            decreases body@.len() - si,
        {
            self.check_statement(ctx, &body[si], f);
            si = si + 1;
        }
        self.ownership.pop_scope();
        ctx.symbols.pop_scope();
    }

    /// Checks a return statement against the expected return type.
    #[verifier::loop_isolation(false)]
    fn check_return(
        &mut self,
        ctx: &mut SemanticContext,
        value: &Option<Expr>,
        span: Span,
        fuel: u64,
    )
        requires
            old(ctx).symbols.spec_depth() >= 1,
        ensures
            final(ctx).symbols.spec_depth() == old(ctx).symbols.spec_depth(),
            final(self).own_depth() == old(self).own_depth(),
            checker_extended(*old(self), *final(self)),
        decreases fuel,
    {
        if fuel == 0 {
            return;
        }
        let f = fuel - 1;
        let return_type: MendesType = match value {
            Some(e) => self.check_expr(ctx, e, f),
            None => MendesType::Unit,
        };

        let expected: Option<MendesType> = match &self.current_return_type {
            Some(t) => Some(t.clone()),
            None => None,
        };
        match expected {
            Some(expected_ty) => {
                if !expected_ty.is_compatible_with(&return_type) {
                    let et = expected_ty.to_text();
                    let rt = return_type.to_text();
                    let msg = cat5(
                        "incompatible return type: expected `",
                        et.as_str(),
                        "`, found `",
                        rt.as_str(),
                        "`",
                    );
                    self.diagnostics.push(
                        Diagnostic::error(msg.as_str()).with_code(ErrorCode::type_mismatch())
                            .with_label(span, "incompatible type"),
                    );
                }
            },
            None => {},
        }
    }
}


impl TypeChecker {
    /// Checks an expression and returns its type; a mismatch yields the
    /// unknown type so errors do not cascade. Literals map directly to
    /// their primitive types without touching any state; borrows,
    /// constructors, tuples and interpolations yield their documented
    /// shapes.
    #[verifier::loop_isolation(false)]
    fn check_expr(&mut self, ctx: &mut SemanticContext, expr: &Expr, fuel: u64) -> (r: MendesType)
        requires
            old(ctx).symbols.spec_depth() >= 1,
        ensures
            final(ctx).symbols.spec_depth() == old(ctx).symbols.spec_depth(),
            final(self).own_depth() == old(self).own_depth(),
            checker_extended(*old(self), *final(self)),
            expr matches Expr::IntLit(_, _) ==> r is Int && *final(self) == *old(self)
                && *final(ctx) == *old(ctx),
            expr matches Expr::FloatLit(_, _) ==> r is Float && *final(self) == *old(self)
                && *final(ctx) == *old(ctx),
            expr matches Expr::StringLit(_, _) ==> r is String && *final(self) == *old(self)
                && *final(ctx) == *old(ctx),
            expr matches Expr::BoolLit(_, _) ==> r is Bool && *final(self) == *old(self)
                && *final(ctx) == *old(ctx),
            expr matches Expr::OptionNone(_) ==> (r matches MendesType::Named(n) && n@ == "None"@)
                && *final(self) == *old(self) && *final(ctx) == *old(ctx),
            fuel > 0 ==> ((expr matches Expr::Borrow { mutable, .. } ==> (*mutable ==> r
                is MutRef) && (!*mutable ==> r is Ref)) && (expr matches Expr::ResultOk(_, _) ==> r
                matches MendesType::Generic { name, args } && name@ == "Result"@ && args@.len()
                == 2 && args@[1] is Unknown) && (expr matches Expr::ResultErr(_, _) ==> r
                matches MendesType::Generic { name, args } && name@ == "Result"@ && args@.len()
                == 2 && args@[0] is Unknown) && (expr matches Expr::OptionSome(_, _) ==> r
                matches MendesType::Generic { name, args } && name@ == "Option"@ && args@.len()
                == 1) && (expr matches Expr::Tuple { .. } ==> r is Tuple) && (expr
                matches Expr::StringInterpolation { .. } ==> r is String) && (expr
                matches Expr::Range { .. } ==> r is Range)),
        decreases fuel,
    {
        if fuel == 0 {
            return match expr {
                Expr::IntLit(_, _) => MendesType::Int,
                Expr::FloatLit(_, _) => MendesType::Float,
                Expr::StringLit(_, _) => MendesType::String,
                Expr::BoolLit(_, _) => MendesType::Bool,
                Expr::OptionNone(_) => MendesType::Named("None".to_owned()),
                _ => MendesType::Unknown,
            };
        }
        let f = fuel - 1;
        match expr {
            Expr::IntLit(_, _) => MendesType::Int,
            Expr::FloatLit(_, _) => MendesType::Float,
            Expr::StringLit(_, _) => MendesType::String,
            Expr::BoolLit(_, _) => MendesType::Bool,
            Expr::OptionNone(_) => MendesType::Named("None".to_owned()),
            Expr::Ident(name, span) => {
                match self.ownership.check_use(name.as_str(), *span) {
                    Ok(_) => {},
                    Err(diag) => {
                        self.diagnostics.push(diag);
                    },
                }

                let found: Option<MendesType> = match ctx.symbols.lookup(name.as_str()) {
                    Some(symbol) => Some(symbol.ty.clone()),
                    None => None,
                };
                match found {
                    Some(ty) => ty,
                    None => {
                        let msg = cat3("variable not found: `", name.as_str(), "`");
                        self.diagnostics.push(
                            Diagnostic::error(msg.as_str()).with_code(
                                ErrorCode::unknown_variable(),
                            ).with_label(*span, "not declared in this scope"),
                        );
                        MendesType::Unknown
                    },
                }
            },
            Expr::Binary { left, op, right, span } => {
                self.check_binary(ctx, left, *op, right, *span, f)
            },
            Expr::Unary { op, expr: inner, span } => self.check_unary(ctx, *op, inner, *span, f),
            Expr::Call { func, args, span } => self.check_call(ctx, func, args, *span, f),
            Expr::MethodCall { object, method, args, span } => {
                self.check_method_call(ctx, object, method, args, *span, f)
            },
            Expr::FieldAccess { object, field, span: _ } => {
                self.check_field_access(ctx, object, field, f)
            },
            Expr::Index { object, index, span } => self.check_index(ctx, object, index, *span, f),
            Expr::Await { expr: inner, span } => {
                if !self.in_async {
                    self.diagnostics.push(
                        Diagnostic::error("await can only be used in async context").with_code(
                            ErrorCode::invalid_syntax(),
                        ).with_label(*span, "await outside of async function"),
                    );
                }

                // Borrows taken since entering the async context may not
                // cross this await.
                self.ownership.check_await(*span);

                let inner_type = self.check_expr(ctx, inner, f);
                match inner_type {
                    MendesType::Future(inner_ty) => *inner_ty,
                    other => other,
                }
            },
            Expr::Borrow { expr: inner, mutable, span } => {
                let inner_type = self.check_expr(ctx, inner, f);

                match &**inner {
                    Expr::Ident(name, _) => {
                        let result = if *mutable {
                            self.ownership.borrow_mut(name.as_str(), *span)
                        } else {
                            self.ownership.borrow(name.as_str(), *span)
                        };
                        match result {
                            Ok(_) => {},
                            Err(diag) => {
                                self.diagnostics.push(diag);
                            },
                        }
                    },
                    _ => {},
                }

                if *mutable {
                    MendesType::MutRef(Box::new(inner_type))
                } else {
                    MendesType::Ref(Box::new(inner_type))
                }
            },
            Expr::ResultOk(inner, _) => {
                let inner_type = self.check_expr(ctx, inner, f);
                let mut args: Vec<MendesType> = Vec::new();
                args.push(inner_type);
                args.push(MendesType::Unknown);
                MendesType::Generic { name: "Result".to_owned(), args }
            },
            Expr::ResultErr(inner, _) => {
                let inner_type = self.check_expr(ctx, inner, f);
                let mut args: Vec<MendesType> = Vec::new();
                args.push(MendesType::Unknown);
                args.push(inner_type);
                MendesType::Generic { name: "Result".to_owned(), args }
            },
            Expr::OptionSome(inner, _) => {
                let inner_type = self.check_expr(ctx, inner, f);
                let mut args: Vec<MendesType> = Vec::new();
                args.push(inner_type);
                MendesType::Generic { name: "Option".to_owned(), args }
            },
            Expr::StructLit { name, fields, span } => {
                self.check_struct_lit(ctx, name, fields, *span, f)
            },
            Expr::ArrayLit(elements, _) => {
                if elements.len() == 0 {
                    MendesType::Array(Box::new(MendesType::Unknown))
                } else {
                    let first_type = self.check_expr(ctx, &elements[0], f);
                    let mut i: usize = 1;
                    while i < elements.len()
                        invariant
                            1 <= i <= elements@.len(),
                            ctx.symbols.spec_depth() == old(ctx).symbols.spec_depth(),
                            self.own_depth() == old(self).own_depth(),
                            checker_extended(*old(self), *self),
                            f < fuel,
                        decreases elements@.len() - i,
                    {
                        let elem_type = self.check_expr(ctx, &elements[i], f);
                        if !first_type.is_compatible_with(&elem_type) {
                            let ft = first_type.to_text();
                            let et = elem_type.to_text();
                            let lbl = cat5(
                                "expected `",
                                ft.as_str(),
                                "`, found `",
                                et.as_str(),
                                "`",
                            );
                            self.diagnostics.push(
                                Diagnostic::error("array elements have different types")
                                    .with_code(ErrorCode::type_mismatch()).with_label(
                                    elements[i].span(),
                                    lbl.as_str(),
                                ),
                            );
                        }
                        i = i + 1;
                    }
                    MendesType::Array(Box::new(first_type))
                }
            },
            Expr::Match { expr: scrutinee, arms, span } => {
                self.check_match(ctx, scrutinee, arms, *span, f)
            },
            Expr::Try { expr: inner, span } => self.check_try(ctx, inner, *span, f),
            Expr::Closure { params, return_type, body, span: _ } => {
                self.check_closure(ctx, params, return_type, body, f)
            },
            Expr::StringInterpolation { parts, span: _ } => {
                let mut i: usize = 0;
                while i < parts.len()
                    invariant
                        i <= parts@.len(),
                        ctx.symbols.spec_depth() == old(ctx).symbols.spec_depth(),
                        self.own_depth() == old(self).own_depth(),
                        checker_extended(*old(self), *self),
                        f < fuel,
                    decreases parts@.len() - i,
                {
                    match &parts[i] {
                        StringPart::Expr(e) => {
                            self.check_expr(ctx, e, f);
                        },
                        StringPart::Literal(_) => {},
                    }
                    i = i + 1;
                }
                MendesType::String
            },
            Expr::Tuple { elements, span: _ } => {
                let mut element_types: Vec<MendesType> = Vec::new();
                let mut i: usize = 0;
                while i < elements.len()
                    invariant
                        i <= elements@.len(),
                        ctx.symbols.spec_depth() == old(ctx).symbols.spec_depth(),
                        self.own_depth() == old(self).own_depth(),
                        checker_extended(*old(self), *self),
                        f < fuel,
                    decreases elements@.len() - i,
                {
                    let t = self.check_expr(ctx, &elements[i], f);
                    element_types.push(t);
                    i = i + 1;
                }
                MendesType::Tuple(element_types)
            },
            Expr::Range { start, end, inclusive: _, span: _ } => {
                let element_type: MendesType = match start {
                    Some(e) => self.check_expr(ctx, e, f),
                    None => {
                        match end {
                            Some(e) => self.check_expr(ctx, e, f),
                            None => MendesType::Int,
                        }
                    },
                };

                match (start, end) {
                    (Some(sb), Some(eb)) => {
                        let start_type = self.check_expr(ctx, sb, f);
                        let end_type = self.check_expr(ctx, eb, f);
                        if !start_type.is_compatible_with(&end_type) {
                            let st = start_type.to_text();
                            let et = end_type.to_text();
                            let msg = cat5(
                                "range bounds must have compatible types: found `",
                                st.as_str(),
                                "` and `",
                                et.as_str(),
                                "`",
                            );
                            self.diagnostics.push(
                                Diagnostic::error(msg.as_str()).with_code(
                                    ErrorCode::type_mismatch(),
                                ).with_label(
                                    sb.span().merge(eb.span()),
                                    "incompatible range bounds",
                                ),
                            );
                        }
                    },
                    _ => {},
                }

                MendesType::Range(Box::new(element_type))
            },
        }
    }

    /// Checks a closure: its parameters enter a fresh scope and its value
    /// is a closure encoding usable where a function type is expected.
    #[verifier::loop_isolation(false)]
    fn check_closure(
        &mut self,
        ctx: &mut SemanticContext,
        params: &Vec<ClosureParam>,
        return_type: &Option<Type>,
        body: &ClosureBody,
        fuel: u64,
    ) -> (r: MendesType)
        requires
            old(ctx).symbols.spec_depth() >= 1,
        ensures
            final(ctx).symbols.spec_depth() == old(ctx).symbols.spec_depth(),
            final(self).own_depth() == old(self).own_depth(),
            checker_extended(*old(self), *final(self)),
        decreases fuel,
    {
        if fuel == 0 {
            return MendesType::Unknown;
        }
        let f = fuel - 1;
        ctx.symbols.push_scope();
        self.ownership.push_scope();

        let mut param_types: Vec<MendesType> = Vec::new();
        let mut i: usize = 0;
        while i < params.len()
            invariant
                i <= params@.len(),
                ctx.symbols.spec_depth() == old(ctx).symbols.spec_depth() + 1,
                self.own_depth() == old(self).own_depth() + 1,
                checker_extended(*old(self), *self),
            decreases params@.len() - i,
        {
            let ty: MendesType = match &params[i].ty {
                Some(t) => MendesType::from_ast(t),
                None => MendesType::Unknown,
            };

            ctx.symbols.define(
                Symbol::variable(params[i].name.clone(), ty.clone(), false, params[i].span),
            );
            self.ownership.define(params[i].name.clone(), ty.clone(), false, params[i].span);
            param_types.push(ty);
            i = i + 1;
        }

        let body_type: MendesType = match body {
            ClosureBody::Expr(e) => self.check_expr(ctx, e, f),
            ClosureBody::Block(stmts) => {
                let mut result_type = MendesType::Unit;
                let mut si: usize = 0;
                while si < stmts.len()
                    invariant
                        si <= stmts@.len(),
                        ctx.symbols.spec_depth() == old(ctx).symbols.spec_depth() + 1,
                        self.own_depth() == old(self).own_depth() + 1,
                        checker_extended(*old(self), *self),
                        f < fuel,
                    decreases stmts@.len() - si,
                {
                    match &stmts[si] {
                        Stmt::Return { value, .. } => {
                            match value {
                                Some(val) => {
                                    result_type = self.check_expr(ctx, val, f);
                                },
                                None => {},
                            }
                        },
                        other => {
                            self.check_statement(ctx, other, f);
                        },
                    }
                    si = si + 1;
                }
                result_type
            },
        };

        self.ownership.pop_scope();
        ctx.symbols.pop_scope();

        let ret_type: MendesType = match return_type {
            Some(rt) => MendesType::from_ast(rt),
            None => body_type,
        };

        let mut args = param_types;
        args.push(ret_type);
        MendesType::Generic { name: "Fn".to_owned(), args }
    }

    /// Checks a try expression: the operand must be a result or option
    /// instantiation, and the value is its success type.
    #[verifier::loop_isolation(false)]
    fn check_try(&mut self, ctx: &mut SemanticContext, expr: &Expr, span: Span, fuel: u64) -> (r:
        MendesType)
        requires
            old(ctx).symbols.spec_depth() >= 1,
        ensures
            final(ctx).symbols.spec_depth() == old(ctx).symbols.spec_depth(),
            final(self).own_depth() == old(self).own_depth(),
            checker_extended(*old(self), *final(self)),
        decreases fuel,
    {
        if fuel == 0 {
            return MendesType::Unknown;
        }
        let f = fuel - 1;
        let expr_type = self.check_expr(ctx, expr, f);

        match expr_type {
            MendesType::Generic { name, args } => {
                if string_is(&name, "Result") || string_is(&name, "Option") {
                    if args.len() > 0 {
                        let mut args = args;
                        let first = args.remove(0);
                        first
                    } else {
                        MendesType::Unknown
                    }
                } else {
                    let tt = MendesType::Generic { name, args }.to_text();
                    let msg = cat3(
                        "the `?` operator can only be applied to `Result` or `Option`, found `",
                        tt.as_str(),
                        "`",
                    );
                    self.diagnostics.push(
                        Diagnostic::error(msg.as_str()).with_code(ErrorCode::type_mismatch())
                            .with_label(span, "cannot use `?` here"),
                    );
                    MendesType::Unknown
                }
            },
            MendesType::Unknown => MendesType::Unknown,
            other => {
                let tt = other.to_text();
                let msg = cat3(
                    "the `?` operator can only be applied to `Result` or `Option`, found `",
                    tt.as_str(),
                    "`",
                );
                self.diagnostics.push(
                    Diagnostic::error(msg.as_str()).with_code(ErrorCode::type_mismatch())
                        .with_label(span, "cannot use `?` here"),
                );
                MendesType::Unknown
            },
        }
    }

    /// Checks a match expression: all arms must yield mutually compatible
    /// types, the first arm's being authoritative.
    #[verifier::loop_isolation(false)]
    fn check_match(
        &mut self,
        ctx: &mut SemanticContext,
        expr: &Expr,
        arms: &Vec<MatchArm>,
        span: Span,
        fuel: u64,
    ) -> (r: MendesType)
        requires
            old(ctx).symbols.spec_depth() >= 1,
        ensures
            final(ctx).symbols.spec_depth() == old(ctx).symbols.spec_depth(),
            final(self).own_depth() == old(self).own_depth(),
            checker_extended(*old(self), *final(self)),
            (fuel > 0 && arms@.len() == 0) ==> (r is Unknown && final(self).spec_diags().len()
                > old(self).spec_diags().len() && final(self).spec_diags().last().level is Error
                && final(self).spec_diags().last().code == Some(
                ErrorCode { category: 'P', number: 4u16 },
            ) && final(self).spec_diags().last().labels@.len() == 1
                && final(self).spec_diags().last().labels@[0].span == span),
        decreases fuel,
    {
        if fuel == 0 {
            return MendesType::Unknown;
        }
        let f = fuel - 1;
        let scrutinee_type = self.check_expr(ctx, expr, f);

        let mut arm_types: Vec<MendesType> = Vec::new();

        let mut ai: usize = 0;
        while ai < arms.len()
            invariant
                ai <= arms@.len(),
                arm_types@.len() == ai,
                ctx.symbols.spec_depth() == old(ctx).symbols.spec_depth(),
                self.own_depth() == old(self).own_depth(),
                checker_extended(*old(self), *self),
                f < fuel,
            decreases arms@.len() - ai,
        {
            ctx.symbols.push_scope();
            self.ownership.push_scope();

            self.check_pattern(ctx, &arms[ai].pattern, &scrutinee_type, f);

            match &arms[ai].guard {
                Some(guard) => {
                    let guard_type = self.check_expr(ctx, guard, f);
                    if !guard_type.is_compatible_with(&MendesType::Bool) {
                        let tt = guard_type.to_text();
                        let msg = cat3("match guard must be `bool`, found `", tt.as_str(), "`");
                        self.diagnostics.push(
                            Diagnostic::error(msg.as_str()).with_code(ErrorCode::type_mismatch())
                                .with_label(guard.span(), "expected bool"),
                        );
                    }
                },
                None => {},
            }

            let mut arm_type = MendesType::Unit;
            let mut si: usize = 0;
            while si < arms[ai].body.len()
                invariant
                    ai < arms@.len(),
                    si <= arms@[ai as int].body@.len(),
                    ctx.symbols.spec_depth() == old(ctx).symbols.spec_depth() + 1,
                    self.own_depth() == old(self).own_depth() + 1,
                    checker_extended(*old(self), *self),
                    f < fuel,
                decreases arms@[ai as int].body@.len() - si,
            {
                match &arms[ai].body[si] {
                    Stmt::Return { value, .. } => {
                        match value {
                            Some(val) => {
                                arm_type = self.check_expr(ctx, val, f);
                            },
                            None => {},
                        }
                    },
                    Stmt::Expr(e) => {
                        match e {
                            Expr::ResultOk(val, _) => {
                                arm_type = self.check_expr(ctx, val, f);
                            },
                            Expr::ResultErr(val, _) => {
                                arm_type = self.check_expr(ctx, val, f);
                            },
                            other_expr => {
                                arm_type = self.check_expr(ctx, other_expr, f);
                            },
                        }
                    },
                    other => {
                        self.check_statement(ctx, other, f);
                    },
                }
                si = si + 1;
            }

            arm_types.push(arm_type);

            self.ownership.pop_scope();
            ctx.symbols.pop_scope();
            ai = ai + 1;
        }

        if arm_types.len() > 0 {
            let mut i: usize = 1;
            while i < arm_types.len()
                invariant
                    1 <= i <= arm_types@.len(),
                    arm_types@.len() <= arms@.len(),
                    ctx.symbols.spec_depth() == old(ctx).symbols.spec_depth(),
                    self.own_depth() == old(self).own_depth(),
                    checker_extended(*old(self), *self),
                decreases arm_types@.len() - i,
            {
                if !arm_types[0].is_compatible_with(&arm_types[i]) {
                    let ft = arm_types[0].to_text();
                    let at = arm_types[i].to_text();
                    let msg = cat5(
                        "match arms have incompatible types: expected `",
                        ft.as_str(),
                        "`, found `",
                        at.as_str(),
                        "`",
                    );
                    let arm_span = if i < arms.len() {
                        arms[i].span
                    } else {
                        span
                    };
                    self.diagnostics.push(
                        Diagnostic::error(msg.as_str()).with_code(ErrorCode::type_mismatch())
                            .with_label(arm_span, "incompatible type in this arm"),
                    );
                }
                i = i + 1;
            }
            let first = arm_types.remove(0);
            first
        } else {
            self.diagnostics.push(
                Diagnostic::error("match expression must have at least one arm").with_code(
                    ErrorCode::invalid_syntax(),
                ).with_label(span, "empty match"),
            );
            MendesType::Unknown
        }
    }

    /// Checks a pattern against the scrutinee type and binds its
    /// variables.
    #[verifier::loop_isolation(false)]
    fn check_pattern(
        &mut self,
        ctx: &mut SemanticContext,
        pattern: &Pattern,
        expected_type: &MendesType,
        fuel: u64,
    )
        requires
            old(ctx).symbols.spec_depth() >= 1,
        ensures
            final(ctx).symbols.spec_depth() == old(ctx).symbols.spec_depth(),
            final(self).own_depth() == old(self).own_depth(),
            checker_extended(*old(self), *final(self)),
            pattern matches Pattern::Ident { name, mutable, .. } ==> (fuel > 0
                ==> (final(ctx).symbols.spec_lookup(name@) matches Some(sym)
                && sym.kind is Variable && sym.mutable == mutable
                && crate::types::type_equal(*expected_type, sym.ty))),
        decreases fuel,
    {
        if fuel == 0 {
            return;
        }
        let f = fuel - 1;
        match pattern {
            Pattern::Wildcard(_) => {},
            Pattern::Literal(e) => {
                let lit_type = self.check_expr(ctx, e, f);
                if !expected_type.is_compatible_with(&lit_type) {
                    let lt = lit_type.to_text();
                    let et = expected_type.to_text();
                    let msg = cat5(
                        "pattern type `",
                        lt.as_str(),
                        "` does not match expected `",
                        et.as_str(),
                        "`",
                    );
                    self.diagnostics.push(
                        Diagnostic::error(msg.as_str()).with_code(ErrorCode::type_mismatch())
                            .with_label(e.span(), "incompatible pattern"),
                    );
                }
            },
            Pattern::Ident { name, mutable, span } => {
                ctx.symbols.define(
                    Symbol::variable(name.clone(), expected_type.clone(), *mutable, *span),
                );
                self.ownership.define(name.clone(), expected_type.clone(), *mutable, *span);
            },
            Pattern::Tuple(patterns, _span) => {
                let mut i: usize = 0;
                while i < patterns.len()
                    invariant
                        i <= patterns@.len(),
                        ctx.symbols.spec_depth() == old(ctx).symbols.spec_depth(),
                        self.own_depth() == old(self).own_depth(),
                        checker_extended(*old(self), *self),
                        f < fuel,
                    decreases patterns@.len() - i,
                {
                    self.check_pattern(ctx, &patterns[i], &MendesType::Unknown, f);
                    i = i + 1;
                }
            },
            Pattern::Struct { name, fields, span } => {
                let def: Option<StructDef> = match ctx.types.get_struct(name.as_str()) {
                    Some(d) => Some(d.clone()),
                    None => None,
                };
                match def {
                    Some(struct_def) => {
                        let mut i: usize = 0;
                        while i < fields.len()
                            invariant
                                i <= fields@.len(),
                                ctx.symbols.spec_depth() == old(ctx).symbols.spec_depth(),
                                self.own_depth() == old(self).own_depth(),
                                checker_extended(*old(self), *self),
                                f < fuel,
                            decreases fields@.len() - i,
                        {
                            let field_type: MendesType = match find_field(
                                &struct_def.fields,
                                fields[i].0.as_str(),
                            ) {
                                Some(t) => t,
                                None => {
                                    let msg = cat5(
                                        "field `",
                                        fields[i].0.as_str(),
                                        "` not found in struct `",
                                        name.as_str(),
                                        "`",
                                    );
                                    self.diagnostics.push(
                                        Diagnostic::error(msg.as_str()).with_code(
                                            ErrorCode::unknown_variable(),
                                        ).with_label(*span, "unknown field"),
                                    );
                                    MendesType::Unknown
                                },
                            };

                            match &fields[i].1 {
                                Some(pat) => {
                                    self.check_pattern(ctx, pat, &field_type, f);
                                },
                                None => {
                                    // Shorthand: the field name binds the
                                    // field's value.
                                    ctx.symbols.define(
                                        Symbol::variable(
                                            fields[i].0.clone(),
                                            field_type.clone(),
                                            false,
                                            *span,
                                        ),
                                    );
                                    self.ownership.define(
                                        fields[i].0.clone(),
                                        field_type,
                                        false,
                                        *span,
                                    );
                                },
                            }
                            i = i + 1;
                        }
                    },
                    None => {},
                }
            },
            Pattern::Variant { enum_name, variant, data, span } => {
                self.check_variant_pattern(ctx, enum_name, variant, data, expected_type, *span, f);
            },
            Pattern::Or(patterns, _span) => {
                let mut i: usize = 0;
                while i < patterns.len()
                    invariant
                        i <= patterns@.len(),
                        ctx.symbols.spec_depth() == old(ctx).symbols.spec_depth(),
                        self.own_depth() == old(self).own_depth(),
                        checker_extended(*old(self), *self),
                        f < fuel,
                    decreases patterns@.len() - i,
                {
                    self.check_pattern(ctx, &patterns[i], expected_type, f);
                    i = i + 1;
                }
            },
            Pattern::Range { start, end, inclusive: _, span } => {
                match start {
                    Some(sb) => {
                        let start_type = self.check_expr(ctx, sb, f);
                        if !expected_type.is_compatible_with(&start_type) {
                            let st = start_type.to_text();
                            let et = expected_type.to_text();
                            let msg = cat5(
                                "range start type `",
                                st.as_str(),
                                "` does not match expected `",
                                et.as_str(),
                                "`",
                            );
                            self.diagnostics.push(
                                Diagnostic::error(msg.as_str()).with_code(
                                    ErrorCode::type_mismatch(),
                                ).with_label(*span, "incompatible range"),
                            );
                        }
                    },
                    None => {},
                }
                match end {
                    Some(eb) => {
                        let end_type = self.check_expr(ctx, eb, f);
                        if !expected_type.is_compatible_with(&end_type) {
                            let et2 = end_type.to_text();
                            let et = expected_type.to_text();
                            let msg = cat5(
                                "range end type `",
                                et2.as_str(),
                                "` does not match expected `",
                                et.as_str(),
                                "`",
                            );
                            self.diagnostics.push(
                                Diagnostic::error(msg.as_str()).with_code(
                                    ErrorCode::type_mismatch(),
                                ).with_label(*span, "incompatible range"),
                            );
                        }
                    },
                    None => {},
                }
            },
        }
    }

    /// Checks a variant pattern: the built-in option and result variants
    /// extract their generic argument as the inner scrutinee type;
    /// user-defined enums are looked up for their variant payloads.
    #[verifier::loop_isolation(false)]
    fn check_variant_pattern(
        &mut self,
        ctx: &mut SemanticContext,
        enum_name: &Option<String>,
        variant: &String,
        data: &VariantPatternData,
        expected_type: &MendesType,
        span: Span,
        fuel: u64,
    )
        requires
            old(ctx).symbols.spec_depth() >= 1,
        ensures
            final(ctx).symbols.spec_depth() == old(ctx).symbols.spec_depth(),
            final(self).own_depth() == old(self).own_depth(),
            checker_extended(*old(self), *final(self)),
        decreases fuel,
    {
        if fuel == 0 {
            return;
        }
        let f = fuel - 1;
        let named_option = match enum_name {
            Some(n) => string_is(n, "Option"),
            None => false,
        };
        let named_result = match enum_name {
            Some(n) => string_is(n, "Result"),
            None => false,
        };
        let is_option_none = named_option && string_is(variant, "None");
        let is_option_some = named_option && string_is(variant, "Some");
        let is_result_ok = named_result && string_is(variant, "Ok");
        let is_result_err = named_result && string_is(variant, "Err");

        if is_option_none {
            // Nothing to bind.
        } else if is_option_some || is_result_ok || is_result_err {
            let inner_type: MendesType = match expected_type {
                MendesType::Generic { name: _, args } => {
                    if is_result_err {
                        if args.len() > 1 {
                            args[1].clone()
                        } else {
                            MendesType::Unknown
                        }
                    } else {
                        if args.len() > 0 {
                            args[0].clone()
                        } else {
                            MendesType::Unknown
                        }
                    }
                },
                _ => MendesType::Unknown,
            };

            match data {
                VariantPatternData::Tuple(patterns) => {
                    let mut i: usize = 0;
                    while i < patterns.len()
                        invariant
                            i <= patterns@.len(),
                            ctx.symbols.spec_depth() == old(ctx).symbols.spec_depth(),
                            self.own_depth() == old(self).own_depth(),
                            checker_extended(*old(self), *self),
                            f < fuel,
                        decreases patterns@.len() - i,
                    {
                        self.check_pattern(ctx, &patterns[i], &inner_type, f);
                        i = i + 1;
                    }
                },
                _ => {},
            }
        } else {
            match enum_name {
                Some(enum_name_str) => {
                    let variant_types: Option<Vec<MendesType>> = lookup_enum_variant(
                        ctx,
                        enum_name_str.as_str(),
                        variant.as_str(),
                    );

                    match variant_types {
                        Some(types) => {
                            match data {
                                VariantPatternData::Unit => {},
                                VariantPatternData::Tuple(patterns) => {
                                    let mut i: usize = 0;
                                    while i < patterns.len()
                                        invariant
                                            i <= patterns@.len(),
                                            ctx.symbols.spec_depth() == old(
                                                ctx,
                                            ).symbols.spec_depth(),
                                            self.own_depth() == old(self).own_depth(),
                                            checker_extended(*old(self), *self),
                                            f < fuel,
                                        decreases patterns@.len() - i,
                                    {
                                        let ty: MendesType = if i < types.len() {
                                            types[i].clone()
                                        } else {
                                            MendesType::Unknown
                                        };
                                        self.check_pattern(ctx, &patterns[i], &ty, f);
                                        i = i + 1;
                                    }
                                },
                                VariantPatternData::Struct(fields) => {
                                    let mut i: usize = 0;
                                    while i < fields.len()
                                        invariant
                                            i <= fields@.len(),
                                            ctx.symbols.spec_depth() == old(
                                                ctx,
                                            ).symbols.spec_depth(),
                                            self.own_depth() == old(self).own_depth(),
                                            checker_extended(*old(self), *self),
                                            f < fuel,
                                        decreases fields@.len() - i,
                                    {
                                        match &fields[i].1 {
                                            Some(pat) => {
                                                self.check_pattern(
                                                    ctx,
                                                    pat,
                                                    &MendesType::Unknown,
                                                    f,
                                                );
                                            },
                                            None => {
                                                ctx.symbols.define(
                                                    Symbol::variable(
                                                        fields[i].0.clone(),
                                                        MendesType::Unknown,
                                                        false,
                                                        span,
                                                    ),
                                                );
                                            },
                                        }
                                        i = i + 1;
                                    }
                                },
                            }
                        },
                        None => {
                            let enum_exists = match ctx.symbols.lookup(enum_name_str.as_str()) {
                                Some(_) => true,
                                None => false,
                            };
                            if enum_exists {
                                let msg = cat5(
                                    "variant `",
                                    variant.as_str(),
                                    "` not found in enum `",
                                    enum_name_str.as_str(),
                                    "`",
                                );
                                self.diagnostics.push(
                                    Diagnostic::error(msg.as_str()).with_code(
                                        ErrorCode::unknown_variable(),
                                    ).with_label(span, "unknown variant"),
                                );
                            }
                        },
                    }
                },
                None => {
                    // Unqualified variant: resolved through the expected
                    // type.
                    match expected_type {
                        MendesType::Named(scrutinee_name) => {
                            let variant_types: Option<Vec<MendesType>> = lookup_enum_variant(
                                ctx,
                                scrutinee_name.as_str(),
                                variant.as_str(),
                            );
                            match variant_types {
                                Some(types) => {
                                    match data {
                                        VariantPatternData::Tuple(patterns) => {
                                            let mut i: usize = 0;
                                            while i < patterns.len()
                                                invariant
                                                    i <= patterns@.len(),
                                                    ctx.symbols.spec_depth() == old(
                                                        ctx,
                                                    ).symbols.spec_depth(),
                                                    self.own_depth() == old(self).own_depth(),
                                                    checker_extended(*old(self), *self),
                                                    f < fuel,
                                                decreases patterns@.len() - i,
                                            {
                                                let ty: MendesType = if i < types.len() {
                                                    types[i].clone()
                                                } else {
                                                    MendesType::Unknown
                                                };
                                                self.check_pattern(ctx, &patterns[i], &ty, f);
                                                i = i + 1;
                                            }
                                        },
                                        _ => {},
                                    }
                                },
                                None => {},
                            }
                        },
                        _ => {},
                    }
                },
            }
        }
    }
}

/// The type of a named field in a field list.
#[verifier::loop_isolation(false)]
fn find_field(fields: &Vec<(String, MendesType)>, name: &str) -> (r: Option<MendesType>) {
    let mut i: usize = 0;
    while i < fields.len()
        invariant
            i <= fields@.len(),
        decreases fields@.len() - i,
    {
        if string_is(&fields[i].0, name) {
            return Some(fields[i].1.clone());
        }
        i = i + 1;
    }
    None
}

/// The payload types of an enum's variant, when the name resolves to an
/// enum that has it.
#[verifier::loop_isolation(false)]
fn lookup_enum_variant(
    ctx: &SemanticContext,
    enum_name: &str,
    variant: &str,
) -> (r: Option<Vec<MendesType>>) {
    match ctx.symbols.lookup(enum_name) {
        Some(symbol) => {
            match &symbol.kind {
                SymbolKind::Enum { variants } => {
                    let mut i: usize = 0;
                    while i < variants.len()
                        invariant
                            i <= variants@.len(),
                        decreases variants@.len() - i,
                    {
                        if string_is(&variants[i].0, variant) {
                            return Some(clone_types_vec(&variants[i].1));
                        }
                        i = i + 1;
                    }
                    None
                },
                _ => None,
            }
        },
        None => None,
    }
}

/// Clones a vector of semantic types.
#[verifier::loop_isolation(false)]
fn clone_types_vec(v: &Vec<MendesType>) -> (r: Vec<MendesType>) {
    let mut r: Vec<MendesType> = Vec::new();
    let mut i: usize = 0;
    while i < v.len()
        invariant
            i <= v@.len(),
        decreases v@.len() - i,
    {
        r.push(v[i].clone());
        i = i + 1;
    }
    r
}


impl TypeChecker {
    /// Checks a binary operation. Arithmetic requires matching numeric
    /// operands (string addition is concatenation); comparisons require
    /// compatible operands and yield booleans; logical operators require
    /// booleans; assignment requires the right side compatible with the
    /// left.
    #[verifier::loop_isolation(false)]
    fn check_binary(
        &mut self,
        ctx: &mut SemanticContext,
        left: &Expr,
        op: BinOp,
        right: &Expr,
        span: Span,
        fuel: u64,
    ) -> (r: MendesType)
        requires
            old(ctx).symbols.spec_depth() >= 1,
        ensures
            final(ctx).symbols.spec_depth() == old(ctx).symbols.spec_depth(),
            final(self).own_depth() == old(self).own_depth(),
            checker_extended(*old(self), *final(self)),
        decreases fuel,
    {
        if fuel == 0 {
            return MendesType::Unknown;
        }
        let f = fuel - 1;
        let left_type = self.check_expr(ctx, left, f);
        let right_type = self.check_expr(ctx, right, f);

        match op {
            BinOp::Add | BinOp::Sub | BinOp::Mul | BinOp::Div | BinOp::Mod => {
                if matches!(op, BinOp::Add) && matches!(left_type, MendesType::String) && matches!(
                    right_type,
                    MendesType::String,
                ) {
                    return MendesType::String;
                }

                let numeric_ok = match (&left_type, &right_type) {
                    (MendesType::Int, MendesType::Int) => true,
                    (MendesType::Float, MendesType::Float) => true,
                    (MendesType::Unknown, _) => true,
                    (_, MendesType::Unknown) => true,
                    _ => false,
                };
                if !numeric_ok {
                    let lt = left_type.to_text();
                    let rt = right_type.to_text();
                    let opname: &str = match op {
                        BinOp::Add => "Add",
                        BinOp::Sub => "Sub",
                        BinOp::Mul => "Mul",
                        BinOp::Div => "Div",
                        _ => "Mod",
                    };
                    let head = cat3("operation `", opname, "` not supported between `");
                    let msg = cat5(head.as_str(), lt.as_str(), "` and `", rt.as_str(), "`");
                    self.diagnostics.push(
                        Diagnostic::error(msg.as_str()).with_code(ErrorCode::type_mismatch())
                            .with_label(span, "incompatible types"),
                    );
                }

                if matches!(left_type, MendesType::Float) || matches!(
                    right_type,
                    MendesType::Float,
                ) {
                    MendesType::Float
                } else {
                    MendesType::Int
                }
            },
            BinOp::Eq | BinOp::Ne | BinOp::Lt | BinOp::Le | BinOp::Gt | BinOp::Ge => {
                if !left_type.is_compatible_with(&right_type) {
                    let lt = left_type.to_text();
                    let rt = right_type.to_text();
                    let msg = cat5(
                        "cannot compare `",
                        lt.as_str(),
                        "` with `",
                        rt.as_str(),
                        "`",
                    );
                    self.diagnostics.push(
                        Diagnostic::error(msg.as_str()).with_code(ErrorCode::type_mismatch())
                            .with_label(span, "incompatible types"),
                    );
                }
                MendesType::Bool
            },
            BinOp::And | BinOp::Or => {
                let bool_ok = match (&left_type, &right_type) {
                    (MendesType::Bool, MendesType::Bool) => true,
                    (MendesType::Unknown, _) => true,
                    (_, MendesType::Unknown) => true,
                    _ => false,
                };
                if !bool_ok {
                    let lt = left_type.to_text();
                    let rt = right_type.to_text();
                    let msg = cat5(
                        "logical operators require `bool`, found `",
                        lt.as_str(),
                        "` and `",
                        rt.as_str(),
                        "`",
                    );
                    self.diagnostics.push(
                        Diagnostic::error(msg.as_str()).with_code(ErrorCode::type_mismatch())
                            .with_label(span, "expected bool"),
                    );
                }
                MendesType::Bool
            },
            BinOp::Assign | BinOp::AddAssign | BinOp::SubAssign | BinOp::MulAssign
                | BinOp::DivAssign => {
                if !left_type.is_compatible_with(&right_type) {
                    let lt = left_type.to_text();
                    let rt = right_type.to_text();
                    let msg = cat5(
                        "cannot assign `",
                        rt.as_str(),
                        "` to `",
                        lt.as_str(),
                        "`",
                    );
                    self.diagnostics.push(
                        Diagnostic::error(msg.as_str()).with_code(ErrorCode::type_mismatch())
                            .with_label(span, "incompatible types"),
                    );
                }
                MendesType::Unit
            },
        }
    }

    /// Checks a unary operation: negation requires a numeric operand, and
    /// logical not requires a boolean.
    #[verifier::loop_isolation(false)]
    fn check_unary(
        &mut self,
        ctx: &mut SemanticContext,
        op: UnaryOp,
        expr: &Expr,
        span: Span,
        fuel: u64,
    ) -> (r: MendesType)
        requires
            old(ctx).symbols.spec_depth() >= 1,
        ensures
            final(ctx).symbols.spec_depth() == old(ctx).symbols.spec_depth(),
            final(self).own_depth() == old(self).own_depth(),
            checker_extended(*old(self), *final(self)),
        decreases fuel,
    {
        if fuel == 0 {
            return MendesType::Unknown;
        }
        let f = fuel - 1;
        let expr_type = self.check_expr(ctx, expr, f);

        match op {
            UnaryOp::Neg => {
                let ok = matches!(
                    expr_type,
                    MendesType::Int | MendesType::Float | MendesType::Unknown
                );
                if !ok {
                    let tt = expr_type.to_text();
                    let msg = cat3("cannot negate `", tt.as_str(), "`");
                    self.diagnostics.push(
                        Diagnostic::error(msg.as_str()).with_code(ErrorCode::type_mismatch())
                            .with_label(span, "expected int or float"),
                    );
                }
                expr_type
            },
            UnaryOp::Not => {
                let ok = matches!(expr_type, MendesType::Bool | MendesType::Unknown);
                if !ok {
                    let tt = expr_type.to_text();
                    let msg = cat3("`not` requires `bool`, found `", tt.as_str(), "`");
                    self.diagnostics.push(
                        Diagnostic::error(msg.as_str()).with_code(ErrorCode::type_mismatch())
                            .with_label(span, "expected bool"),
                    );
                }
                MendesType::Bool
            },
        }
    }

    /// Checks a call: the argument count must match exactly; generic
    /// parameters are inferred from the arguments (first structural match
    /// binds); and the substitution is applied to the remaining parameters
    /// and the return type before compatibility is judged.
    #[verifier::loop_isolation(false)]
    fn check_call(
        &mut self,
        ctx: &mut SemanticContext,
        func: &Expr,
        args: &Vec<Expr>,
        span: Span,
        fuel: u64,
    ) -> (r: MendesType)
        requires
            old(ctx).symbols.spec_depth() >= 1,
        ensures
            final(ctx).symbols.spec_depth() == old(ctx).symbols.spec_depth(),
            final(self).own_depth() == old(self).own_depth(),
            checker_extended(*old(self), *final(self)),
        decreases fuel,
    {
        if fuel == 0 {
            return MendesType::Unknown;
        }
        let f = fuel - 1;
        let mut arg_types: Vec<MendesType> = Vec::new();
        let mut i: usize = 0;
        while i < args.len()
            invariant
                i <= args@.len(),
                arg_types@.len() == i,
                ctx.symbols.spec_depth() == old(ctx).symbols.spec_depth(),
                self.own_depth() == old(self).own_depth(),
                checker_extended(*old(self), *self),
                f < fuel,
            decreases args@.len() - i,
        {
            let t = self.check_expr(ctx, &args[i], f);
            arg_types.push(t);
            i = i + 1;
        }

        // The callee's generic parameters, parameters and return type.
        let mut generic_params: Vec<String> = Vec::new();
        let mut func_params: Vec<(String, MendesType)> = Vec::new();
        let mut func_ret: MendesType = MendesType::Unknown;
        let mut named_callee = false;

        match func {
            Expr::Ident(func_name, _) => {
                named_callee = true;
                match ctx.symbols.lookup(func_name.as_str()) {
                    Some(symbol) => {
                        match &symbol.kind {
                            SymbolKind::Function { generic_params: gp, params, return_type, .. }
                                => {
                                generic_params = gp.clone();
                                func_params = params.clone();
                                func_ret = return_type.clone();
                            },
                            _ => {},
                        }
                    },
                    None => {},
                }
            },
            _ => {},
        }

        if !named_callee {
            let func_type = self.check_expr(ctx, func, f);
            match func_type {
                MendesType::Function { params, ret } => {
                    let mut pi: usize = 0;
                    while pi < params.len()
                        invariant
                            pi <= params@.len(),
                        decreases params@.len() - pi,
                    {
                        func_params.push(("arg".to_owned(), params[pi].clone()));
                        pi = pi + 1;
                    }
                    func_ret = *ret;
                },
                _ => {},
            }
        }

        if func_params.len() > 0 && args.len() != func_params.len() {
            let want = crate::text::u64_to_dec(func_params.len() as u64);
            let got = crate::text::u64_to_dec(args.len() as u64);
            let msg = cat5(
                "expected ",
                want.as_str(),
                " arguments, found ",
                got.as_str(),
                "",
            );
            self.diagnostics.push(
                Diagnostic::error(msg.as_str()).with_code(ErrorCode::type_mismatch()).with_label(
                    span,
                    "incorrect number of arguments",
                ),
            );
            return MendesType::Unknown;
        }

        // Infer the generic parameters: the first structural match binds.
        let mut substitutions: Vec<(String, MendesType)> = Vec::new();
        let mut si: usize = 0;
        while si < func_params.len()
            invariant
                si <= func_params@.len(),
            decreases func_params@.len() - si,
        {
            if si < arg_types.len() {
                collect_type_substitutions(
                    &func_params[si].1,
                    &arg_types[si],
                    &generic_params,
                    &mut substitutions,
                );
            }
            si = si + 1;
        }

        // Judge each argument against the substituted parameter type.
        let mut ai: usize = 0;
        while ai < func_params.len()
            invariant
                ai <= func_params@.len(),
                ctx.symbols.spec_depth() == old(ctx).symbols.spec_depth(),
                self.own_depth() == old(self).own_depth(),
                checker_extended(*old(self), *self),
            decreases func_params@.len() - ai,
        {
            if ai < arg_types.len() && ai < args.len() {
                let substituted = substitute_generics(&func_params[ai].1, &substitutions);
                if !substituted.is_compatible_with(&arg_types[ai]) {
                    let st = substituted.to_text();
                    let at = arg_types[ai].to_text();
                    let msg = cat5(
                        "incompatible argument: expected `",
                        st.as_str(),
                        "`, found `",
                        at.as_str(),
                        "`",
                    );
                    self.diagnostics.push(
                        Diagnostic::error(msg.as_str()).with_code(ErrorCode::type_mismatch())
                            .with_label(args[ai].span(), "incompatible type"),
                    );
                }

                // Passing a non-copy value by value moves it.
                match &args[ai] {
                    Expr::Ident(name, arg_span) => {
                        if !func_params[ai].1.is_ref() && !arg_types[ai].is_copy() {
                            self.ownership.mark_moved(name.as_str(), *arg_span);
                        }
                    },
                    _ => {},
                }
            }
            ai = ai + 1;
        }

        substitute_generics(&func_ret, &substitutions)
    }

    /// Checks a field access: struct fields resolve through the registry,
    /// with auto-dereference through references.
    #[verifier::loop_isolation(false)]
    fn check_field_access(
        &mut self,
        ctx: &mut SemanticContext,
        object: &Expr,
        field: &String,
        fuel: u64,
    ) -> (r: MendesType)
        requires
            old(ctx).symbols.spec_depth() >= 1,
        ensures
            final(ctx).symbols.spec_depth() == old(ctx).symbols.spec_depth(),
            final(self).own_depth() == old(self).own_depth(),
            checker_extended(*old(self), *final(self)),
        decreases fuel,
    {
        if fuel == 0 {
            return MendesType::Unknown;
        }
        let f = fuel - 1;
        let object_type = self.check_expr(ctx, object, f);

        let name: Option<String> = match &object_type {
            MendesType::Named(n) => Some(n.clone()),
            MendesType::Ref(inner) => {
                match &**inner {
                    MendesType::Named(n) => Some(n.clone()),
                    _ => None,
                }
            },
            MendesType::MutRef(inner) => {
                match &**inner {
                    MendesType::Named(n) => Some(n.clone()),
                    _ => None,
                }
            },
            _ => None,
        };

        match name {
            Some(struct_name) => {
                match ctx.types.get_struct(struct_name.as_str()) {
                    Some(struct_def) => {
                        match find_field(&struct_def.fields, field.as_str()) {
                            Some(t) => t,
                            None => MendesType::Unknown,
                        }
                    },
                    None => MendesType::Unknown,
                }
            },
            None => MendesType::Unknown,
        }
    }

    /// Checks a method call: the receiver's struct methods are searched
    /// first, then the built-in methods of the primitive types.
    #[verifier::loop_isolation(false)]
    fn check_method_call(
        &mut self,
        ctx: &mut SemanticContext,
        object: &Expr,
        method: &String,
        args: &Vec<Expr>,
        span: Span,
        fuel: u64,
    ) -> (r: MendesType)
        requires
            old(ctx).symbols.spec_depth() >= 1,
        ensures
            final(ctx).symbols.spec_depth() == old(ctx).symbols.spec_depth(),
            final(self).own_depth() == old(self).own_depth(),
            checker_extended(*old(self), *final(self)),
        decreases fuel,
    {
        if fuel == 0 {
            return MendesType::Unknown;
        }
        let f = fuel - 1;
        let object_type = self.check_expr(ctx, object, f);

        let struct_name: Option<String> = match &object_type {
            MendesType::Named(n) => Some(n.clone()),
            MendesType::Ref(inner) => {
                match &**inner {
                    MendesType::Named(n) => Some(n.clone()),
                    _ => None,
                }
            },
            MendesType::MutRef(inner) => {
                match &**inner {
                    MendesType::Named(n) => Some(n.clone()),
                    _ => None,
                }
            },
            _ => None,
        };

        match struct_name {
            Some(name) => {
                let def: Option<StructDef> = match ctx.types.get_struct(name.as_str()) {
                    Some(d) => Some(d.clone()),
                    None => None,
                };
                match def {
                    Some(struct_def) => {
                        let mut mi: usize = 0;
                        while mi < struct_def.methods.len()
                            invariant
                                mi <= struct_def.methods@.len(),
                                ctx.symbols.spec_depth() == old(ctx).symbols.spec_depth(),
                                self.own_depth() == old(self).own_depth(),
                                checker_extended(*old(self), *self),
                                f < fuel,
                            decreases struct_def.methods@.len() - mi,
                        {
                            if string_is(&struct_def.methods[mi].0, method.as_str()) {
                                if args.len() != struct_def.methods[mi].1.len() {
                                    let want = crate::text::u64_to_dec(
                                        struct_def.methods[mi].1.len() as u64,
                                    );
                                    let got = crate::text::u64_to_dec(args.len() as u64);
                                    let head = cat3("method `", method.as_str(), "` expects ");
                                    let msg = cat5(
                                        head.as_str(),
                                        want.as_str(),
                                        " arguments, found ",
                                        got.as_str(),
                                        "",
                                    );
                                    self.diagnostics.push(
                                        Diagnostic::error(msg.as_str()).with_code(
                                            ErrorCode::type_mismatch(),
                                        ).with_label(span, "incorrect number of arguments"),
                                    );
                                }

                                let mut aj: usize = 0;
                                while aj < args.len()
                                    invariant
                                        mi < struct_def.methods@.len(),
                                        aj <= args@.len(),
                                        ctx.symbols.spec_depth() == old(
                                            ctx,
                                        ).symbols.spec_depth(),
                                        self.own_depth() == old(self).own_depth(),
                                        checker_extended(*old(self), *self),
                                        f < fuel,
                                    decreases args@.len() - aj,
                                {
                                    let arg_type = self.check_expr(ctx, &args[aj], f);
                                    if aj < struct_def.methods[mi].1.len() {
                                        if !struct_def.methods[mi].1[aj].1.is_compatible_with(
                                            &arg_type,
                                        ) {
                                            let et = struct_def.methods[mi].1[aj].1.to_text();
                                            let at = arg_type.to_text();
                                            let msg = cat5(
                                                "incompatible argument: expected `",
                                                et.as_str(),
                                                "`, found `",
                                                at.as_str(),
                                                "`",
                                            );
                                            self.diagnostics.push(
                                                Diagnostic::error(msg.as_str()).with_code(
                                                    ErrorCode::type_mismatch(),
                                                ).with_label(
                                                    args[aj].span(),
                                                    "incompatible type",
                                                ),
                                            );
                                        }
                                    }
                                    aj = aj + 1;
                                }

                                return struct_def.methods[mi].2.clone();
                            }
                            mi = mi + 1;
                        }

                        return self.check_builtin_method(ctx, &object_type, method, args, span, f);
                    },
                    None => {},
                }
                self.check_builtin_method(ctx, &object_type, method, args, span, f)
            },
            None => self.check_builtin_method(ctx, &object_type, method, args, span, f),
        }
    }

    /// Checks the built-in methods of the primitive types: string, array,
    /// and the result and option instantiations.
    #[verifier::loop_isolation(false)]
    fn check_builtin_method(
        &mut self,
        ctx: &mut SemanticContext,
        object_type: &MendesType,
        method: &String,
        args: &Vec<Expr>,
        span: Span,
        fuel: u64,
    ) -> (r: MendesType)
        requires
            old(ctx).symbols.spec_depth() >= 1,
        ensures
            final(ctx).symbols.spec_depth() == old(ctx).symbols.spec_depth(),
            final(self).own_depth() == old(self).own_depth(),
            checker_extended(*old(self), *final(self)),
        decreases fuel,
    {
        if fuel == 0 {
            return MendesType::Unknown;
        }
        let f = fuel - 1;
        let mut i: usize = 0;
        while i < args.len()
            invariant
                i <= args@.len(),
                ctx.symbols.spec_depth() == old(ctx).symbols.spec_depth(),
                self.own_depth() == old(self).own_depth(),
                checker_extended(*old(self), *self),
                f < fuel,
            decreases args@.len() - i,
        {
            self.check_expr(ctx, &args[i], f);
            i = i + 1;
        }

        match object_type {
            MendesType::String => {
                if string_is(method, "len") {
                    MendesType::Int
                } else if string_is(method, "contains") {
                    MendesType::Bool
                } else if string_is(method, "concat") || string_is(method, "to_upper")
                    || string_is(method, "to_lower") || string_is(method, "trim") {
                    MendesType::String
                } else if string_is(method, "split") {
                    MendesType::Array(Box::new(MendesType::String))
                } else {
                    MendesType::Unknown
                }
            },
            MendesType::Array(_) => {
                if string_is(method, "len") {
                    MendesType::Int
                } else if string_is(method, "push") || string_is(method, "pop") {
                    MendesType::Unit
                } else if string_is(method, "is_empty") {
                    MendesType::Bool
                } else {
                    MendesType::Unknown
                }
            },
            MendesType::Generic { name, args: type_args } => {
                if string_is(name, "Result") || string_is(name, "Option") {
                    if string_is(method, "is_ok") || string_is(method, "is_err") || string_is(
                        method,
                        "is_some",
                    ) || string_is(method, "is_none") {
                        MendesType::Bool
                    } else if string_is(method, "unwrap") || string_is(method, "unwrap_or") {
                        if type_args.len() > 0 {
                            type_args[0].clone()
                        } else {
                            MendesType::Unknown
                        }
                    } else {
                        MendesType::Unknown
                    }
                } else {
                    MendesType::Unknown
                }
            },
            other => {
                if !string_is(method, "to_string") && !string_is(method, "clone") {
                    let tt = other.to_text();
                    let msg = cat5(
                        "method `",
                        method.as_str(),
                        "` not found on type `",
                        tt.as_str(),
                        "`",
                    );
                    self.diagnostics.push(
                        Diagnostic::error(msg.as_str()).with_code(ErrorCode::unknown_variable())
                            .with_label(span, "method not found"),
                    );
                }
                MendesType::Unknown
            },
        }
    }

    /// Checks an index access: the index must be an integer, and the
    /// container an array or string.
    #[verifier::loop_isolation(false)]
    fn check_index(
        &mut self,
        ctx: &mut SemanticContext,
        object: &Expr,
        index: &Expr,
        span: Span,
        fuel: u64,
    ) -> (r: MendesType)
        requires
            old(ctx).symbols.spec_depth() >= 1,
        ensures
            final(ctx).symbols.spec_depth() == old(ctx).symbols.spec_depth(),
            final(self).own_depth() == old(self).own_depth(),
            checker_extended(*old(self), *final(self)),
        decreases fuel,
    {
        if fuel == 0 {
            return MendesType::Unknown;
        }
        let f = fuel - 1;
        let object_type = self.check_expr(ctx, object, f);
        let index_type = self.check_expr(ctx, index, f);

        let idx_ok = matches!(index_type, MendesType::Int | MendesType::Unknown);
        if !idx_ok {
            let tt = index_type.to_text();
            let msg = cat3("index must be `int`, found `", tt.as_str(), "`");
            self.diagnostics.push(
                Diagnostic::error(msg.as_str()).with_code(ErrorCode::type_mismatch()).with_label(
                    index.span(),
                    "expected int",
                ),
            );
        }

        match object_type {
            MendesType::Array(inner) => *inner,
            MendesType::String => MendesType::String,
            MendesType::Unknown => MendesType::Unknown,
            other => {
                let tt = other.to_text();
                let msg = cat3("type `", tt.as_str(), "` does not support indexing");
                self.diagnostics.push(
                    Diagnostic::error(msg.as_str()).with_code(ErrorCode::type_mismatch())
                        .with_label(span, "not indexable"),
                );
                MendesType::Unknown
            },
        }
    }

    /// Checks a struct literal: the field set must match exactly, with no
    /// field missing or extra, and each field's value compatible.
    #[verifier::loop_isolation(false)]
    fn check_struct_lit(
        &mut self,
        ctx: &mut SemanticContext,
        name: &String,
        fields: &Vec<(String, Expr)>,
        span: Span,
        fuel: u64,
    ) -> (r: MendesType)
        requires
            old(ctx).symbols.spec_depth() >= 1,
        ensures
            final(ctx).symbols.spec_depth() == old(ctx).symbols.spec_depth(),
            final(self).own_depth() == old(self).own_depth(),
            checker_extended(*old(self), *final(self)),
        decreases fuel,
    {
        if fuel == 0 {
            return MendesType::Unknown;
        }
        let f = fuel - 1;
        let expected: Option<Vec<(String, MendesType)>> = match ctx.types.get_struct(
            name.as_str(),
        ) {
            Some(d) => Some(clone_fields(&d.fields)),
            None => None,
        };

        match expected {
            Some(expected_fields) => {
                // Missing fields.
                let mut ei: usize = 0;
                while ei < expected_fields.len()
                    invariant
                        ei <= expected_fields@.len(),
                        ctx.symbols.spec_depth() == old(ctx).symbols.spec_depth(),
                        self.own_depth() == old(self).own_depth(),
                        checker_extended(*old(self), *self),
                    decreases expected_fields@.len() - ei,
                {
                    if !has_field_named(fields, expected_fields[ei].0.as_str()) {
                        let msg = cat5(
                            "field `",
                            expected_fields[ei].0.as_str(),
                            "` missing in `",
                            name.as_str(),
                            "`",
                        );
                        self.diagnostics.push(
                            Diagnostic::error(msg.as_str()).with_code(ErrorCode::type_mismatch())
                                .with_label(span, "required field not provided"),
                        );
                    }
                    ei = ei + 1;
                }

                // Extra fields.
                let mut pi: usize = 0;
                while pi < fields.len()
                    invariant
                        pi <= fields@.len(),
                        ctx.symbols.spec_depth() == old(ctx).symbols.spec_depth(),
                        self.own_depth() == old(self).own_depth(),
                        checker_extended(*old(self), *self),
                    decreases fields@.len() - pi,
                {
                    if matches!(
                        find_field(&expected_fields, fields[pi].0.as_str()),
                        Option::<MendesType>::None,
                    ) {
                        let msg = cat5(
                            "field `",
                            fields[pi].0.as_str(),
                            "` does not exist in `",
                            name.as_str(),
                            "`",
                        );
                        self.diagnostics.push(
                            Diagnostic::error(msg.as_str()).with_code(ErrorCode::type_mismatch())
                                .with_label(span, "unknown field"),
                        );
                    }
                    pi = pi + 1;
                }

                // Field value types.
                let mut fi: usize = 0;
                while fi < fields.len()
                    invariant
                        fi <= fields@.len(),
                        ctx.symbols.spec_depth() == old(ctx).symbols.spec_depth(),
                        self.own_depth() == old(self).own_depth(),
                        checker_extended(*old(self), *self),
                        f < fuel,
                    decreases fields@.len() - fi,
                {
                    let field_type = self.check_expr(ctx, &fields[fi].1, f);
                    match find_field(&expected_fields, fields[fi].0.as_str()) {
                        Some(expected_type) => {
                            if !expected_type.is_compatible_with(&field_type) {
                                let head = cat3(
                                    "incompatible type for field `",
                                    fields[fi].0.as_str(),
                                    "`: expected `",
                                );
                                let et = expected_type.to_text();
                                let ft = field_type.to_text();
                                let msg = cat5(
                                    head.as_str(),
                                    et.as_str(),
                                    "`, found `",
                                    ft.as_str(),
                                    "`",
                                );
                                self.diagnostics.push(
                                    Diagnostic::error(msg.as_str()).with_code(
                                        ErrorCode::type_mismatch(),
                                    ).with_label(fields[fi].1.span(), "incompatible type"),
                                );
                            }
                        },
                        None => {},
                    }
                    fi = fi + 1;
                }

                MendesType::Named(name.clone())
            },
            None => {
                let msg = cat3("struct `", name.as_str(), "` not found");
                self.diagnostics.push(
                    Diagnostic::error(msg.as_str()).with_code(ErrorCode::unknown_type())
                        .with_label(span, "type not declared"),
                );
                MendesType::Unknown
            },
        }
    }
}

/// Whether a literal's field list names the given field.
#[verifier::loop_isolation(false)]
fn has_field_named(fields: &Vec<(String, Expr)>, name: &str) -> (r: bool) {
    let mut i: usize = 0;
    while i < fields.len()
        invariant
            i <= fields@.len(),
        decreases fields@.len() - i,
    {
        if string_is(&fields[i].0, name) {
            return true;
        }
        i = i + 1;
    }
    false
}

/// Clones a field list.
#[verifier::loop_isolation(false)]
fn clone_fields(v: &Vec<(String, MendesType)>) -> (r: Vec<(String, MendesType)>) {
    let mut r: Vec<(String, MendesType)> = Vec::new();
    let mut i: usize = 0;
    while i < v.len()
        invariant
            i <= v@.len(),
        decreases v@.len() - i,
    {
        r.push((v[i].0.clone(), v[i].1.clone()));
        i = i + 1;
    }
    r
}

/// Whether a name is among the declared generic parameters.
#[verifier::loop_isolation(false)]
fn is_generic_name(generic_params: &Vec<String>, name: &str) -> (r: bool) {
    let mut i: usize = 0;
    while i < generic_params.len()
        invariant
            i <= generic_params@.len(),
        decreases generic_params@.len() - i,
    {
        if string_is(&generic_params[i], name) {
            return true;
        }
        i = i + 1;
    }
    false
}

/// Collects generic substitutions by matching a parameter type against an
/// argument type: the first structural match of each generic name binds
/// it, and later occurrences are not re-unified.
#[verifier::loop_isolation(false)]
fn collect_type_substitutions(
    param_type: &MendesType,
    arg_type: &MendesType,
    generic_params: &Vec<String>,
    substitutions: &mut Vec<(String, MendesType)>,
)
    decreases crate::types::type_depth(*param_type), 0int,
{
    match param_type {
        MendesType::Named(name) => {
            if is_generic_name(generic_params, name.as_str()) {
                if !crate::assoc::assoc_contains(substitutions, name.as_str()) {
                    crate::assoc::assoc_set(substitutions, name.clone(), arg_type.clone());
                }
            }
        },
        MendesType::Ref(inner) => {
            match arg_type {
                MendesType::Ref(arg_inner) => {
                    collect_type_substitutions(inner, arg_inner, generic_params, substitutions);
                },
                _ => {},
            }
        },
        MendesType::MutRef(inner) => {
            match arg_type {
                MendesType::MutRef(arg_inner) => {
                    collect_type_substitutions(inner, arg_inner, generic_params, substitutions);
                },
                _ => {},
            }
        },
        MendesType::Array(inner) => {
            match arg_type {
                MendesType::Array(arg_inner) => {
                    collect_type_substitutions(inner, arg_inner, generic_params, substitutions);
                },
                _ => {},
            }
        },
        MendesType::Generic { name: _, args } => {
            match arg_type {
                MendesType::Generic { name: _, args: arg_args } => {
                    let mut i: usize = 0;
                    while i < args.len()
                        invariant
                            i <= args@.len(),
                            crate::types::types_depth(args@) < crate::types::type_depth(
                                *param_type,
                            ),
                        decreases args@.len() - i,
                    {
                        if i < arg_args.len() {
                            proof {
                                crate::types::lemma_types_depth(args@, i as int);
                            }
                            collect_type_substitutions(
                                &args[i],
                                &arg_args[i],
                                generic_params,
                                substitutions,
                            );
                        }
                        i = i + 1;
                    }
                },
                _ => {},
            }
        },
        MendesType::Tuple(types) => {
            match arg_type {
                MendesType::Tuple(arg_types) => {
                    let mut i: usize = 0;
                    while i < types.len()
                        invariant
                            i <= types@.len(),
                            crate::types::types_depth(types@) < crate::types::type_depth(
                                *param_type,
                            ),
                        decreases types@.len() - i,
                    {
                        if i < arg_types.len() {
                            proof {
                                crate::types::lemma_types_depth(types@, i as int);
                            }
                            collect_type_substitutions(
                                &types[i],
                                &arg_types[i],
                                generic_params,
                                substitutions,
                            );
                        }
                        i = i + 1;
                    }
                },
                _ => {},
            }
        },
        _ => {},
    }
}

/// Applies a substitution to a type, replacing bound generic names.
#[verifier::loop_isolation(false)]
fn substitute_generics(
    ty: &MendesType,
    substitutions: &Vec<(String, MendesType)>,
) -> (r: MendesType)
    decreases crate::types::type_depth(*ty), 0int,
{
    match ty {
        MendesType::Named(name) => {
            match crate::assoc::assoc_get(substitutions, name.as_str()) {
                Some(subst) => subst.clone(),
                None => MendesType::Named(name.clone()),
            }
        },
        MendesType::Ref(inner) => MendesType::Ref(
            Box::new(substitute_generics(inner, substitutions)),
        ),
        MendesType::MutRef(inner) => MendesType::MutRef(
            Box::new(substitute_generics(inner, substitutions)),
        ),
        MendesType::Array(inner) => MendesType::Array(
            Box::new(substitute_generics(inner, substitutions)),
        ),
        MendesType::Generic { name, args } => MendesType::Generic {
            name: name.clone(),
            args: substitute_list(args, substitutions),
        },
        MendesType::Function { params, ret } => MendesType::Function {
            params: substitute_list(params, substitutions),
            ret: Box::new(substitute_generics(ret, substitutions)),
        },
        MendesType::Future(inner) => MendesType::Future(
            Box::new(substitute_generics(inner, substitutions)),
        ),
        MendesType::Tuple(types) => MendesType::Tuple(substitute_list(types, substitutions)),
        MendesType::Range(inner) => MendesType::Range(
            Box::new(substitute_generics(inner, substitutions)),
        ),
        MendesType::Unknown => MendesType::Unknown,
        MendesType::Any => MendesType::Any,
        MendesType::Unit => MendesType::Unit,
        MendesType::Int => MendesType::Int,
        MendesType::Float => MendesType::Float,
        MendesType::Bool => MendesType::Bool,
        MendesType::String => MendesType::String,
    }
}

/// Applies a substitution to every element of a type list.
#[verifier::loop_isolation(false)]
fn substitute_list(
    v: &Vec<MendesType>,
    substitutions: &Vec<(String, MendesType)>,
) -> (r: Vec<MendesType>)
    decreases crate::types::types_depth(v@), 1int,
{
    let mut r: Vec<MendesType> = Vec::new();
    let mut i: usize = 0;
    while i < v.len()
        invariant
            i <= v@.len(),
        decreases v@.len() - i,
    {
        proof {
            crate::types::lemma_types_depth(v@, i as int);
        }
        r.push(substitute_generics(&v[i], substitutions));
        i = i + 1;
    }
    r
}

} // verus!
