//! Lowering: converts the syntax tree to the IR, independent of the
//! checking verdict. Declarations are collected first so forward references
//! resolve; every function body is then lowered on its own, with explicit
//! label and temporary counters.

use vstd::prelude::*;

use crate::assoc::{assoc_contains, assoc_set};
use crate::ast::{
    ApiDecl, BinOp, ClosureBody, DbType, Expr, FnDecl, HttpMethod, ImplTraitDecl, MethodDecl,
    MethodReceiver, MiddlewareDecl, Pattern, Program, Stmt, StringPart, UnaryOp,
    VariantPatternData, WsDecl,
};
use crate::ir::instruction::{BinaryOp, CompareOp, Instruction, Value};
use crate::ir::module::{
    distinct_strings, extends_frozen, fn_wf, same_signature, spec_block_terminated, BasicBlock, DatabaseConfig,
    Function, HttpRoute, Module, ServerConfig, TraitDef, TraitMethodDef, TypeAlias, WsRoute,
};
use crate::ir::types::{GenericParam, IrType, StructDef};
use crate::text::{push_char, push_str, string_is, u64_to_dec};

verus! {

/// A function whose construction is finished: it has blocks and its last
/// block ends in a terminator.
pub open spec fn fn_closed(f: Function) -> bool {
    f.blocks@.len() >= 1 && spec_block_terminated(f.blocks@.last())
}

/// What lowering guarantees of a module under construction: the string
/// table is value-unique and every function added so far is closed.
pub open spec fn module_invariants(m: Module) -> bool {
    &&& distinct_strings(m.string_table@)
    &&& forall|i: int| 0 <= i < m.functions@.len() ==> fn_closed(#[trigger] m.functions@[i])
}

/// Lowering never rewrites a finished function: the module's function list
/// only grows, and the server configuration is left alone by body
/// lowering.
pub open spec fn module_fns_extended(pre: Module, post: Module) -> bool {
    &&& post.functions@.len() >= pre.functions@.len()
    &&& forall|i: int| 0 <= i < pre.functions@.len() ==> post.functions@[i] == pre.functions@[i]
    &&& post.routes@.len() >= pre.routes@.len()
    &&& forall|i: int| 0 <= i < pre.routes@.len() ==> post.routes@[i] == pre.routes@[i]
}

pub open spec fn module_extended(pre: Module, post: Module) -> bool {
    &&& post.functions@.len() >= pre.functions@.len()
    &&& forall|i: int| 0 <= i < pre.functions@.len() ==> post.functions@[i] == pre.functions@[i]
    &&& post.routes == pre.routes
    &&& post.server == pre.server
}

/// A lowered function carries its declaration's signature: the same name
/// and async flag, the declared parameters mapped to their IR types, the
/// declared return type (void when unannotated), and a terminated final
/// block.
pub open spec fn fn_matches_decl(g: Function, f: FnDecl) -> bool {
    &&& g.name@ == f.name@
    &&& g.is_async == f.is_async
    &&& g.params@.len() == f.params@.len()
    &&& forall|k: int|
        0 <= k < f.params@.len() ==> (#[trigger] g.params@[k]).0@ == f.params@[k].name@
            && crate::ir::types::ir_of_ast(f.params@[k].ty, g.params@[k].1)
    &&& match f.return_type {
        Some(t) => crate::ir::types::ir_of_ast(t, g.return_type),
        None => g.return_type is Void,
    }
    &&& fn_closed(g)
}

/// The request text of an HTTP method keyword.
pub open spec fn http_method_text(m: HttpMethod) -> Seq<char> {
    match m {
        HttpMethod::Get => "GET"@,
        HttpMethod::Post => "POST"@,
        HttpMethod::Put => "PUT"@,
        HttpMethod::Delete => "DELETE"@,
        HttpMethod::Patch => "PATCH"@,
    }
}

/// The server configuration a statement list leaves behind: the last
/// server declaration wins, and none leaves it unset.
pub open spec fn spec_server_of(stmts: Seq<Stmt>) -> Option<(Seq<char>, u16)>
    decreases stmts.len(),
{
    if stmts.len() == 0 {
        None
    } else {
        match stmts.last() {
            Stmt::Server(sd) => Some((sd.host@, sd.port)),
            _ => spec_server_of(stmts.drop_last()),
        }
    }
}

/// Whether a module's server configuration agrees with the folded result
/// of the declarations seen so far.
pub open spec fn server_matches(s: Option<ServerConfig>, x: Option<(Seq<char>, u16)>) -> bool {
    match x {
        Some(hp) => s matches Some(c) && c.host@ == hp.0 && c.port == hp.1,
        None => s is None,
    }
}

/// A function declaration among the statements has a lowered counterpart
/// in the module.
pub open spec fn fn_stmt_lowered(stmt: Stmt, m: Module) -> bool {
    stmt matches Stmt::Fn(f) ==> exists|j: int|
        0 <= j < m.functions@.len() && fn_matches_decl(#[trigger] m.functions@[j], f)
}

/// An API declaration among the statements has a registered route in the
/// module, under its method, path and async flag.
pub open spec fn api_stmt_lowered(stmt: Stmt, m: Module) -> bool {
    stmt matches Stmt::Api(a) ==> exists|j: int|
        0 <= j < m.routes@.len() && (#[trigger] m.routes@[j]).method@ == http_method_text(a.method)
            && m.routes@[j].path@ == a.path@ && m.routes@[j].is_async == a.is_async
}

/// The lowering context: the module being built, plus the label and
/// handler-name counters, threaded explicitly rather than held globally.
pub struct LoweringContext {
    /// The module being built.
    pub module: Module,
    /// Label counter for fresh block labels.
    pub label_counter: u32,
    /// HTTP handler name counter.
    pub handler_counter: u32,
}

impl LoweringContext {
    pub fn new(module_name: &str) -> (r: Self)
        ensures
            module_invariants(r.module),
            r.module.server is None,
            r.module.functions@ =~= Seq::<Function>::empty(),
    {
        LoweringContext { module: Module::new(module_name), label_counter: 0, handler_counter: 0 }
    }

    /// Generates a fresh label: the prefix, an underscore, and the
    /// counter's current decimal value. The counter then advances (until
    /// it saturates at the machine limit), so successive labels under the
    /// limit are distinct.
    fn new_label(&mut self, prefix: &str) -> (r: String)
        ensures
            final(self).module == old(self).module,
            final(self).handler_counter == old(self).handler_counter,
            r@ == prefix@ + seq!['_'] + crate::text::spec_dec(old(self).label_counter as nat),
            final(self).label_counter as int == (if old(self).label_counter < 0xffff_ffffu32 {
                old(self).label_counter + 1
            } else {
                old(self).label_counter as int
            }),
    {
        let mut label = prefix.to_owned();
        push_char(&mut label, '_');
        let n = u64_to_dec(self.label_counter as u64);
        push_str(&mut label, n.as_str());
        proof {
            assert(label@ =~= prefix@ + seq!['_'] + crate::text::spec_dec(
                old(self).label_counter as nat,
            ));
        }
        self.label_counter = if self.label_counter < 0xffff_ffffu32 {
            self.label_counter + 1
        } else {
            self.label_counter
        };
        label
    }

    /// Takes a fresh number for a closure name.
    fn new_closure_id(&mut self) -> (r: u32)
        ensures
            final(self).module == old(self).module,
    {
        let id = self.label_counter;
        self.label_counter = if self.label_counter < 0xffff_ffffu32 {
            self.label_counter + 1
        } else {
            self.label_counter
        };
        id
    }

    /// Generates a unique name for an HTTP handler.
    fn new_handler_name(&mut self, method_lower: &str, path: &str) -> (r: String)
        ensures
            final(self).module == old(self).module,
    {
        let safe_path = sanitize_path(path);
        let mut name = "__http_".to_owned();
        push_str(&mut name, method_lower);
        push_char(&mut name, '_');
        push_str(&mut name, safe_path.as_str());
        let n = u64_to_dec(self.handler_counter as u64);
        push_str(&mut name, n.as_str());
        self.handler_counter = if self.handler_counter < 0xffff_ffffu32 {
            self.handler_counter + 1
        } else {
            self.handler_counter
        };
        name
    }

    /// Adds a finished function to the module, preserving the module
    /// invariants.
    fn add_closed_function(&mut self, func: Function)
        requires
            fn_closed(func),
        ensures
            module_invariants(old(self).module) ==> module_invariants(final(self).module),
            final(self).module.string_table == old(self).module.string_table,
            final(self).module.functions@ == old(self).module.functions@.push(func),
            final(self).module.structs == old(self).module.structs,
            final(self).module.routes == old(self).module.routes,
            final(self).module.server == old(self).module.server,
    {
        let ghost origfns = self.module.functions@;
        self.module.add_function(func);
        proof {
            if module_invariants(old(self).module) {
                assert forall|i: int|
                    0 <= i < self.module.functions@.len() implies fn_closed(
                    #[trigger] self.module.functions@[i],
                ) by {
                    if i < origfns.len() {
                        assert(self.module.functions@[i] == origfns[i]);
                    }
                }
            }
        }
    }
}

/// Replaces path separators and parameter punctuation so a route path can
/// stand inside a function name.
fn sanitize_path(path: &str) -> (r: String) {
    let chars = crate::text::str_chars(path);
    let mut out: Vec<char> = Vec::new();
    let mut i: usize = 0;
    while i < chars.len()
        invariant
            i <= chars@.len(),
        decreases chars@.len() - i,
    {
        let c = chars[i];
        if c == '/' {
            out.push('_');
        } else if c == '{' || c == '}' {
            // dropped
        } else if c == ':' {
            out.push('_');
        } else {
            out.push(c);
        }
        i = i + 1;
    }
    crate::text::chars_to_string(&out)
}

/// Replaces path separators with underscores, for WebSocket handler names.
fn underscore_path(path: &str) -> (r: String) {
    let chars = crate::text::str_chars(path);
    let mut out: Vec<char> = Vec::new();
    let mut i: usize = 0;
    while i < chars.len()
        invariant
            i <= chars@.len(),
        decreases chars@.len() - i,
    {
        let c = chars[i];
        if c == '/' {
            out.push('_');
        } else {
            out.push(c);
        }
        i = i + 1;
    }
    crate::text::chars_to_string(&out)
}

/// Converts a syntax-tree generic parameter to its IR form.
fn convert_generic_param(ast_param: &crate::ast::GenericParam) -> (r: GenericParam) {
    GenericParam { name: ast_param.name.clone(), bounds: clone_strings(&ast_param.bounds) }
}

/// Clones a vector of strings.
fn clone_strings(v: &Vec<String>) -> (r: Vec<String>)
    ensures
        r@.len() == v@.len(),
        forall|i: int| 0 <= i < v@.len() ==> (#[trigger] r@[i])@ == v@[i]@,
{
    let mut r: Vec<String> = Vec::new();
    let mut i: usize = 0;
    while i < v.len()
        invariant
            i <= v@.len(),
            r@.len() == i,
            forall|j: int| 0 <= j < i ==> (#[trigger] r@[j])@ == v@[j]@,
        decreases v@.len() - i,
    {
        r.push(v[i].clone());
        i = i + 1;
    }
    r
}

/// Converts a syntax-tree program to an IR module. The result's string
/// table never holds duplicate values, every function's final block ends
/// in a terminator, the server configuration is the last one declared,
/// every declared function has a lowered counterpart carrying its
/// signature, and every API declaration has a registered route.
pub fn lower_program(program: &Program) -> (m: Module)
    ensures
        distinct_strings(m.string_table@),
        forall|i: int| 0 <= i < m.functions@.len() ==> fn_closed(#[trigger] m.functions@[i]),
        server_matches(m.server, spec_server_of(program.statements@)),
        forall|i: int|
            0 <= i < program.statements@.len() ==> fn_stmt_lowered(
                #[trigger] program.statements@[i],
                m,
            ),
        forall|i: int|
            0 <= i < program.statements@.len() ==> api_stmt_lowered(
                #[trigger] program.statements@[i],
                m,
            ),
{
    let mut ctx = LoweringContext::new("main");
    proof {
        assert(program.statements@.subrange(0, 0) =~= Seq::<Stmt>::empty());
    }

    // First pass: collect declarations.
    let mut i: usize = 0;
    while i < program.statements.len()
        invariant
            i <= program.statements@.len(),
            module_invariants(ctx.module),
            server_matches(
                ctx.module.server,
                spec_server_of(program.statements@.subrange(0, i as int)),
            ),
        decreases program.statements@.len() - i,
    {
        collect_declarations(&mut ctx, &program.statements[i]);
        proof {
            let upto = program.statements@.subrange(0, i as int + 1);
            assert(upto.drop_last() =~= program.statements@.subrange(0, i as int));
            assert(upto.last() == program.statements@[i as int]);
        }
        i = i + 1;
    }
    proof {
        assert(program.statements@.subrange(0, program.statements@.len() as int)
            =~= program.statements@);
    }

    // Second pass: generate code.
    let mut j: usize = 0;
    while j < program.statements.len()
        invariant
            j <= program.statements@.len(),
            module_invariants(ctx.module),
            server_matches(ctx.module.server, spec_server_of(program.statements@)),
            forall|k: int|
                0 <= k < j ==> fn_stmt_lowered(#[trigger] program.statements@[k], ctx.module),
            forall|k: int|
                0 <= k < j ==> api_stmt_lowered(#[trigger] program.statements@[k], ctx.module),
        decreases program.statements@.len() - j,
    {
        let ghost pre = ctx.module;
        lower_statement(&mut ctx, &program.statements[j]);
        proof {
            assert forall|k: int| 0 <= k < j + 1 implies fn_stmt_lowered(
                #[trigger] program.statements@[k],
                ctx.module,
            ) && api_stmt_lowered(program.statements@[k], ctx.module) by {
                if k < j {
                    match program.statements@[k] {
                        Stmt::Fn(f) => {
                            let w = choose|w: int|
                                0 <= w < pre.functions@.len() && fn_matches_decl(
                                    #[trigger] pre.functions@[w],
                                    f,
                                );
                            assert(ctx.module.functions@[w] == pre.functions@[w]);
                            assert(fn_matches_decl(ctx.module.functions@[w], f));
                        },
                        Stmt::Api(a) => {
                            let w = choose|w: int|
                                0 <= w < pre.routes@.len() && (#[trigger] pre.routes@[w]).method@
                                    == http_method_text(a.method) && pre.routes@[w].path@ == a.path@
                                    && pre.routes@[w].is_async == a.is_async;
                            assert(ctx.module.routes@[w] == pre.routes@[w]);
                        },
                        _ => {},
                    }
                } else {
                    match program.statements@[k] {
                        Stmt::Fn(_) => {
                            assert(fn_matches_decl(
                                ctx.module.functions@[ctx.module.functions@.len() - 1],
                                program.statements@[k]->Fn_0,
                            ));
                        },
                        Stmt::Api(_) => {
                            assert(0 <= ctx.module.routes@.len() - 1 < ctx.module.routes@.len());
                        },
                        _ => {},
                    }
                }
            }
        }
        j = j + 1;
    }

    ctx.module
}

/// Collects declarations: structs, traits, type aliases, server and
/// database configuration, and middleware names.
fn collect_declarations(ctx: &mut LoweringContext, stmt: &Stmt)
    ensures
        module_invariants(old(ctx).module) ==> module_invariants(final(ctx).module),
        module_fns_extended(old(ctx).module, final(ctx).module),
        stmt matches Stmt::Server(sd) ==> (final(ctx).module.server matches Some(c)
            && c.host@ == sd.host@ && c.port == sd.port),
        !(stmt is Server) ==> final(ctx).module.server == old(ctx).module.server,
{
    match stmt {
        Stmt::Struct(s) => {
            let mut def = StructDef::new(s.name.clone());
            let mut gi: usize = 0;
            while gi < s.generic_params.len()
                invariant
                    gi <= s.generic_params@.len(),
            decreases s.generic_params@.len() - gi,
            {
                def.add_generic_param(convert_generic_param(&s.generic_params[gi]));
                gi = gi + 1;
            }
            let mut fi: usize = 0;
            while fi < s.fields.len()
                invariant
                    fi <= s.fields@.len(),
                decreases s.fields@.len() - fi,
            {
                def.add_field(
                    s.fields[fi].name.clone(),
                    IrType::from_mendes_type(&s.fields[fi].ty),
                );
                fi = fi + 1;
            }
            let mut mi: usize = 0;
            while mi < s.methods.len()
                invariant
                    mi <= s.methods@.len(),
                decreases s.methods@.len() - mi,
            {
                let mut qual = s.name.clone();
                push_str(&mut qual, "::");
                push_str(&mut qual, s.methods[mi].name.as_str());
                def.add_method(qual);
                mi = mi + 1;
            }
            let ghost pre = ctx.module;
            ctx.module.add_struct(def);
            proof {
                assert(ctx.module.functions == pre.functions);
                assert(ctx.module.string_table == pre.string_table);
            }
        },
        Stmt::Trait(t) => {
            let mut def = TraitDef::new(t.name.as_str());
            let mut gi: usize = 0;
            while gi < t.generic_params.len()
                invariant
                    gi <= t.generic_params@.len(),
                decreases t.generic_params@.len() - gi,
            {
                def.add_generic_param(convert_generic_param(&t.generic_params[gi]));
                gi = gi + 1;
            }
            let mut mi: usize = 0;
            while mi < t.methods.len()
                invariant
                    mi <= t.methods@.len(),
                decreases t.methods@.len() - mi,
            {
                let method = &t.methods[mi];
                let return_type = match &method.return_type {
                    Some(rt) => IrType::from_mendes_type(rt),
                    None => IrType::Void,
                };
                let mut method_def = TraitMethodDef::new(method.name.as_str(), return_type);
                method_def = method_def.set_async(method.is_async);
                method_def = method_def.set_receiver(
                    match method.receiver {
                        MethodReceiver::Ref => 0,
                        MethodReceiver::MutRef => 1,
                        MethodReceiver::Value => 2,
                    },
                );
                let mut pi: usize = 0;
                while pi < t.methods[mi].params.len()
                    invariant
                        mi < t.methods@.len(),
                        pi <= t.methods@[mi as int].params@.len(),
                    decreases t.methods@[mi as int].params@.len() - pi,
                {
                    method_def.add_param(
                        t.methods[mi].params[pi].name.as_str(),
                        IrType::from_mendes_type(&t.methods[mi].params[pi].ty),
                    );
                    pi = pi + 1;
                }
                def.add_method(method_def);
                mi = mi + 1;
            }
            let ghost pre = ctx.module;
            ctx.module.add_trait(def);
            proof {
                assert(ctx.module.functions == pre.functions);
                assert(ctx.module.string_table == pre.string_table);
            }
        },
        Stmt::TypeAlias { name, ty, span: _ } => {
            let alias = TypeAlias::new(name.as_str(), IrType::from_mendes_type(ty));
            let ghost pre = ctx.module;
            ctx.module.add_type_alias(alias);
            proof {
                assert(ctx.module.functions == pre.functions);
                assert(ctx.module.string_table == pre.string_table);
            }
        },
        Stmt::Server(s) => {
            ctx.module.server = Some(ServerConfig { host: s.host.clone(), port: s.port });
        },
        Stmt::Db(db) => {
            let db_type: &str = match db.db_type {
                DbType::Postgres => "postgres",
                DbType::Mysql => "mysql",
                DbType::Sqlite => "sqlite",
            };
            ctx.module.databases.push(
                DatabaseConfig {
                    name: db.name.clone(),
                    db_type: db_type.to_owned(),
                    url: db.url.clone(),
                    pool_size: db.pool_size,
                },
            );
        },
        Stmt::Middleware(m) => {
            ctx.module.middlewares.push(m.name.clone());
        },
        _ => {},
    }
}

/// The fuel handed to body lowering; far more than any body can consume.
fn body_fuel() -> (r: u64) {
    0x0100_0000
}

/// Lowers a top-level statement in the second pass.
fn lower_statement(ctx: &mut LoweringContext, stmt: &Stmt)
    ensures
        module_invariants(old(ctx).module) ==> module_invariants(final(ctx).module),
        module_fns_extended(old(ctx).module, final(ctx).module),
        final(ctx).module.server == old(ctx).module.server,
        stmt matches Stmt::Fn(f) ==> (final(ctx).module.functions@.len()
            > old(ctx).module.functions@.len()
            && fn_matches_decl(final(ctx).module.functions@.last(), *f)),
        stmt matches Stmt::Api(api) ==> (final(ctx).module.routes@.len()
            == old(ctx).module.routes@.len() + 1
            && final(ctx).module.routes@.last().method@ == http_method_text(api.method)
            && final(ctx).module.routes@.last().path@ == api.path@
            && final(ctx).module.routes@.last().is_async == api.is_async),
{
    match stmt {
        Stmt::Fn(f) => {
            lower_function(ctx, f);
        },
        Stmt::Struct(s) => {
            // Lower the struct's methods.
            let mut mi: usize = 0;
            while mi < s.methods.len()
                invariant
                    mi <= s.methods@.len(),
                    module_invariants(old(ctx).module) ==> module_invariants(ctx.module),
                    module_extended(old(ctx).module, ctx.module),
                decreases s.methods@.len() - mi,
            {
                lower_method(ctx, s.name.as_str(), &s.methods[mi], &s.generic_params);
                mi = mi + 1;
            }
        },
        Stmt::Trait(_) => {},
        Stmt::ImplTrait(impl_decl) => {
            lower_impl_trait(ctx, impl_decl);
        },
        Stmt::TypeAlias { .. } => {},
        Stmt::Api(api) => {
            lower_api(ctx, api);
        },
        Stmt::WebSocket(ws) => {
            lower_websocket(ctx, ws);
        },
        Stmt::Middleware(m) => {
            lower_middleware(ctx, m);
        },
        _ => {},
    }
}

/// Closes a function body: when the current block is not yet terminated, an
/// implicit void return is appended.
fn seal_function(func: &mut Function)
    requires
        fn_wf(*old(func)),
    ensures
        fn_closed(*final(func)),
        extends_frozen(*old(func), *final(func)),
        same_signature(*old(func), *final(func)),
{
    if !func.current_block().is_terminated() {
        func.emit(Instruction::Return(Value::Void));
    }
}

/// Lowers a function declaration: the declaration's own function is
/// appended last, carrying its declared signature; body lowering may
/// append closure functions before it.
fn lower_function(ctx: &mut LoweringContext, f: &FnDecl)
    ensures
        module_invariants(old(ctx).module) ==> module_invariants(final(ctx).module),
        module_extended(old(ctx).module, final(ctx).module),
        final(ctx).module.functions@.len() > old(ctx).module.functions@.len(),
        fn_matches_decl(final(ctx).module.functions@.last(), *f),
{
    let return_type = match &f.return_type {
        Some(rt) => IrType::from_mendes_type(rt),
        None => IrType::Void,
    };

    let mut func = Function::new(f.name.as_str(), return_type, f.is_async);
    let ghost rt0 = func.return_type;

    let mut gi: usize = 0;
    while gi < f.generic_params.len()
        invariant
            gi <= f.generic_params@.len(),
            fn_wf(func),
            func.name@ == f.name@,
            func.is_async == f.is_async,
            func.return_type == rt0,
            func.params@.len() == 0,
        decreases f.generic_params@.len() - gi,
    {
        func.add_generic_param(convert_generic_param(&f.generic_params[gi]));
        gi = gi + 1;
    }

    let mut pi: usize = 0;
    while pi < f.params.len()
        invariant
            pi <= f.params@.len(),
            fn_wf(func),
            func.name@ == f.name@,
            func.is_async == f.is_async,
            func.return_type == rt0,
            func.params@.len() == pi,
            forall|k: int|
                0 <= k < pi ==> (#[trigger] func.params@[k]).0@ == f.params@[k].name@
                    && crate::ir::types::ir_of_ast(f.params@[k].ty, func.params@[k].1),
        decreases f.params@.len() - pi,
    {
        let ghost ppre = func.params@;
        func.add_param(f.params[pi].name.as_str(), IrType::from_mendes_type(&f.params[pi].ty));
        proof {
            assert(func.params@.drop_last() == ppre);
            assert(forall|k: int|
                0 <= k < pi ==> #[trigger] func.params@[k] == ppre[k]);
        }
        pi = pi + 1;
    }

    let mut vars: Vec<(String, Value)> = Vec::new();
    lower_body(ctx, &mut func, &mut vars, &f.body);

    seal_function(&mut func);

    ctx.add_closed_function(func);
}

/// Lowers a sequence of body statements into the current block of a
/// function.
fn lower_body(
    ctx: &mut LoweringContext,
    func: &mut Function,
    vars: &mut Vec<(String, Value)>,
    body: &Vec<Stmt>,
)
    requires
        fn_wf(*old(func)),
    ensures
        fn_wf(*final(func)),
        extends_frozen(*old(func), *final(func)),
        same_signature(*old(func), *final(func)),
        module_invariants(old(ctx).module) ==> module_invariants(final(ctx).module),
        module_extended(old(ctx).module, final(ctx).module),
{
    let fuel = body_fuel();
    let ghost base = *old(func);
    let mut i: usize = 0;
    while i < body.len()
        invariant
            i <= body@.len(),
            fn_wf(*func),
            extends_frozen(base, *func),
            same_signature(*old(func), *func),
            module_invariants(old(ctx).module) ==> module_invariants(ctx.module),
            module_extended(old(ctx).module, ctx.module),
        decreases body@.len() - i,
    {
        let ghost pre = *func;
        lower_stmt(ctx, func, vars, &body[i], fuel);
        proof {
            crate::ir::module::lemma_extends_frozen_trans(base, pre, *func);
        }
        i = i + 1;
    }
}

/// Lowers an API declaration: a handler function plus a registered route.
fn lower_api(ctx: &mut LoweringContext, api: &ApiDecl)
    ensures
        module_invariants(old(ctx).module) ==> module_invariants(final(ctx).module),
        module_fns_extended(old(ctx).module, final(ctx).module),
        final(ctx).module.server == old(ctx).module.server,
        final(ctx).module.routes@.len() == old(ctx).module.routes@.len() + 1,
        final(ctx).module.routes@.last().method@ == http_method_text(api.method),
        final(ctx).module.routes@.last().path@ == api.path@,
        final(ctx).module.routes@.last().is_async == api.is_async,
        final(ctx).module.routes@.last().handler@
            == final(ctx).module.functions@.last().name@,
        final(ctx).module.functions@.len() > old(ctx).module.functions@.len(),
        final(ctx).module.functions@.last().is_async == api.is_async,
        fn_closed(final(ctx).module.functions@.last()),
{
    let method: &str = match api.method {
        HttpMethod::Get => "GET",
        HttpMethod::Post => "POST",
        HttpMethod::Put => "PUT",
        HttpMethod::Delete => "DELETE",
        HttpMethod::Patch => "PATCH",
    };
    let method_lower: &str = match api.method {
        HttpMethod::Get => "get",
        HttpMethod::Post => "post",
        HttpMethod::Put => "put",
        HttpMethod::Delete => "delete",
        HttpMethod::Patch => "patch",
    };

    let handler_name = ctx.new_handler_name(method_lower, api.path.as_str());

    let return_type = match &api.return_type {
        Some(rt) => IrType::from_mendes_type(rt),
        None => IrType::Void,
    };

    let mut func = Function::new(handler_name.as_str(), return_type, api.is_async);

    // Implicit API parameters.
    func.add_param("__request", IrType::Struct("Request".to_owned()));

    // Path parameters, from segments such as `{id:int}`.
    extract_path_params(api.path.as_str(), &mut func);

    if api.body_type.is_some() {
        func.add_param("body", IrType::Struct("Body".to_owned()));
    }

    let mut vars: Vec<(String, Value)> = Vec::new();
    lower_body(ctx, &mut func, &mut vars, &api.handler);

    seal_function(&mut func);

    ctx.add_closed_function(func);

    // Register the route.
    let mut route = HttpRoute::new(method, api.path.as_str(), handler_name.as_str());
    route.middlewares = clone_strings(&api.middlewares);
    route.is_async = api.is_async;
    ctx.module.add_route(route);
}

/// Lowers a WebSocket declaration: one handler per declared event, plus the
/// registered route.
fn lower_websocket(ctx: &mut LoweringContext, ws: &WsDecl)
    ensures
        module_invariants(old(ctx).module) ==> module_invariants(final(ctx).module),
        module_extended(old(ctx).module, final(ctx).module),
{
    let upath = underscore_path(ws.path.as_str());

    match &ws.on_connect {
        Some(handler) => {
            let mut handler_name = "__ws_connect__".to_owned();
            push_str(&mut handler_name, upath.as_str());
            let mut func = Function::new(handler_name.as_str(), IrType::Void, true);
            func.add_param("conn", IrType::Struct("WsConnection".to_owned()));
            extract_path_params(ws.path.as_str(), &mut func);

            let mut vars: Vec<(String, Value)> = Vec::new();
            lower_body(ctx, &mut func, &mut vars, handler);
            seal_function(&mut func);
            ctx.add_closed_function(func);
        },
        None => {},
    }

    match &ws.on_message {
        Some(handler) => {
            let mut handler_name = "__ws_message__".to_owned();
            push_str(&mut handler_name, upath.as_str());
            let mut func = Function::new(handler_name.as_str(), IrType::Void, true);
            func.add_param("conn", IrType::Struct("WsConnection".to_owned()));
            func.add_param("message", IrType::String);
            extract_path_params(ws.path.as_str(), &mut func);

            let mut vars: Vec<(String, Value)> = Vec::new();
            lower_body(ctx, &mut func, &mut vars, handler);
            seal_function(&mut func);
            ctx.add_closed_function(func);
        },
        None => {},
    }

    match &ws.on_disconnect {
        Some(handler) => {
            let mut handler_name = "__ws_disconnect__".to_owned();
            push_str(&mut handler_name, upath.as_str());
            let mut func = Function::new(handler_name.as_str(), IrType::Void, true);
            func.add_param("conn", IrType::Struct("WsConnection".to_owned()));
            extract_path_params(ws.path.as_str(), &mut func);

            let mut vars: Vec<(String, Value)> = Vec::new();
            lower_body(ctx, &mut func, &mut vars, handler);
            seal_function(&mut func);
            ctx.add_closed_function(func);
        },
        None => {},
    }

    let mut route = WsRoute::new(ws.path.as_str());
    if ws.on_connect.is_some() {
        let mut n = "__ws_connect__".to_owned();
        push_str(&mut n, upath.as_str());
        route.on_connect = Some(n);
    }
    if ws.on_message.is_some() {
        let mut n = "__ws_message__".to_owned();
        push_str(&mut n, upath.as_str());
        route.on_message = Some(n);
    }
    if ws.on_disconnect.is_some() {
        let mut n = "__ws_disconnect__".to_owned();
        push_str(&mut n, upath.as_str());
        route.on_disconnect = Some(n);
    }
    route.middlewares = clone_strings(&ws.middlewares);
    ctx.module.add_websocket_route(route);
}

/// Adds the parameters declared in a route path, such as `{id:int}`, to a
/// function's signature.
fn extract_path_params(path: &str, func: &mut Function)
    ensures
        final(func).blocks == old(func).blocks,
        final(func).locals == old(func).locals,
        final(func).spec_next_temp() == old(func).spec_next_temp(),
        final(func).name == old(func).name,
        final(func).return_type == old(func).return_type,
        final(func).is_async == old(func).is_async,
        final(func).generic_params == old(func).generic_params,
{
    let chars = crate::text::str_chars(path);
    let n = chars.len();
    let mut i: usize = 0;
    while i < n
        invariant
            n == chars@.len(),
            i <= n,
            func.blocks == old(func).blocks,
            func.locals == old(func).locals,
            func.spec_next_temp() == old(func).spec_next_temp(),
            func.name == old(func).name,
            func.return_type == old(func).return_type,
            func.is_async == old(func).is_async,
            func.generic_params == old(func).generic_params,
        decreases n - i,
    {
        let c = chars[i];
        i = i + 1;
        if c == '{' {
            let mut param: Vec<char> = Vec::new();
            let mut ty_str: Vec<char> = Vec::new();
            let mut in_type = false;

            let ghost i0 = i;
            while i < n
                invariant
                    n == chars@.len(),
                    i0 <= i <= n,
                    func.blocks == old(func).blocks,
                    func.locals == old(func).locals,
                    func.spec_next_temp() == old(func).spec_next_temp(),
                decreases n - i,
            {
                let c2 = chars[i];
                i = i + 1;
                if c2 == '}' {
                    break;
                } else if c2 == ':' {
                    in_type = true;
                } else if in_type {
                    ty_str.push(c2);
                } else {
                    param.push(c2);
                }
            }

            if param.len() > 0 {
                let pname = crate::text::chars_to_string(&param);
                let tname = crate::text::chars_to_string(&ty_str);
                let ty: IrType = if string_is(&tname, "int") {
                    IrType::I64
                } else {
                    IrType::String
                };
                func.add_param(pname.as_str(), ty);
            }
        }
    }
}

/// Lowers a struct method to a function named `Struct::method`.
fn lower_method(
    ctx: &mut LoweringContext,
    struct_name: &str,
    m: &MethodDecl,
    struct_generic_params: &Vec<crate::ast::GenericParam>,
)
    ensures
        module_invariants(old(ctx).module) ==> module_invariants(final(ctx).module),
        module_extended(old(ctx).module, final(ctx).module),
{
    let return_type = match &m.return_type {
        Some(rt) => IrType::from_mendes_type(rt),
        None => IrType::Void,
    };

    let mut method_name = struct_name.to_owned();
    push_str(&mut method_name, "::");
    push_str(&mut method_name, m.name.as_str());
    let mut func = Function::new(method_name.as_str(), return_type, m.is_async);

    let mut gi: usize = 0;
    while gi < struct_generic_params.len()
        invariant
            gi <= struct_generic_params@.len(),
            fn_wf(func),
        decreases struct_generic_params@.len() - gi,
    {
        func.add_generic_param(convert_generic_param(&struct_generic_params[gi]));
        gi = gi + 1;
    }

    // The first parameter is always the receiver.
    func.add_param("self", IrType::Ptr(Box::new(IrType::Struct(struct_name.to_owned()))));

    let mut pi: usize = 0;
    while pi < m.params.len()
        invariant
            pi <= m.params@.len(),
            fn_wf(func),
        decreases m.params@.len() - pi,
    {
        func.add_param(m.params[pi].name.as_str(), IrType::from_mendes_type(&m.params[pi].ty));
        pi = pi + 1;
    }

    let mut vars: Vec<(String, Value)> = Vec::new();
    lower_body(ctx, &mut func, &mut vars, &m.body);

    seal_function(&mut func);

    ctx.add_closed_function(func);
}

/// Lowers a trait implementation: each method becomes a function named
/// `<Type as Trait>::method`.
fn lower_impl_trait(ctx: &mut LoweringContext, impl_decl: &ImplTraitDecl)
    ensures
        module_invariants(old(ctx).module) ==> module_invariants(final(ctx).module),
        module_extended(old(ctx).module, final(ctx).module),
{
    let mut impl_def = crate::ir::module::ImplDef::new(
        impl_decl.trait_name.as_str(),
        impl_decl.target_type.as_str(),
    );

    let mut gi: usize = 0;
    while gi < impl_decl.generic_params.len()
        invariant
            gi <= impl_decl.generic_params@.len(),
        decreases impl_decl.generic_params@.len() - gi,
    {
        impl_def.generic_params.push(convert_generic_param(&impl_decl.generic_params[gi]));
        gi = gi + 1;
    }

    let mut mi: usize = 0;
    while mi < impl_decl.methods.len()
        invariant
            mi <= impl_decl.methods@.len(),
            module_invariants(old(ctx).module) ==> module_invariants(ctx.module),
            module_extended(old(ctx).module, ctx.module),
        decreases impl_decl.methods@.len() - mi,
    {
        let method = &impl_decl.methods[mi];

        let mut method_name = "<".to_owned();
        push_str(&mut method_name, impl_decl.target_type.as_str());
        push_str(&mut method_name, " as ");
        push_str(&mut method_name, impl_decl.trait_name.as_str());
        push_str(&mut method_name, ">::");
        push_str(&mut method_name, method.name.as_str());
        impl_def.add_method(method_name.clone());

        let return_type = match &method.return_type {
            Some(rt) => IrType::from_mendes_type(rt),
            None => IrType::Void,
        };

        let mut func = Function::new(method_name.as_str(), return_type, method.is_async);

        let mut gj: usize = 0;
        while gj < impl_decl.generic_params.len()
            invariant
                gj <= impl_decl.generic_params@.len(),
                fn_wf(func),
            decreases impl_decl.generic_params@.len() - gj,
        {
            func.add_generic_param(convert_generic_param(&impl_decl.generic_params[gj]));
            gj = gj + 1;
        }

        func.add_param(
            "self",
            IrType::Ptr(Box::new(IrType::Struct(impl_decl.target_type.clone()))),
        );

        let mut pi: usize = 0;
        while pi < impl_decl.methods[mi].params.len()
            invariant
                mi < impl_decl.methods@.len(),
                pi <= impl_decl.methods@[mi as int].params@.len(),
                fn_wf(func),
            decreases impl_decl.methods@[mi as int].params@.len() - pi,
        {
            func.add_param(
                impl_decl.methods[mi].params[pi].name.as_str(),
                IrType::from_mendes_type(&impl_decl.methods[mi].params[pi].ty),
            );
            pi = pi + 1;
        }

        let mut vars: Vec<(String, Value)> = Vec::new();
        lower_body(ctx, &mut func, &mut vars, &method.body);

        seal_function(&mut func);

        ctx.add_closed_function(func);

        mi = mi + 1;
    }

    ctx.module.add_impl(impl_def);
}

/// Lowers a middleware declaration to a function taking the request.
fn lower_middleware(ctx: &mut LoweringContext, m: &MiddlewareDecl)
    ensures
        module_invariants(old(ctx).module) ==> module_invariants(final(ctx).module),
        module_extended(old(ctx).module, final(ctx).module),
{
    let mut name = "__middleware_".to_owned();
    push_str(&mut name, m.name.as_str());
    let mut func = Function::new(
        name.as_str(),
        IrType::Struct("MiddlewareResult".to_owned()),
        false,
    );

    func.add_param("request", IrType::Struct("Request".to_owned()));

    let mut vars: Vec<(String, Value)> = Vec::new();
    lower_body(ctx, &mut func, &mut vars, &m.body);

    seal_function(&mut func);

    ctx.add_closed_function(func);
}


/// The shape of a bounded-for-loop condition block: it loads the induction
/// variable, compares it against the bound with `le` for an inclusive range
/// and `lt` otherwise, and branches on the result.
pub open spec fn for_cond_shape(blk: BasicBlock, inclusive: bool, end_val: Value) -> bool {
    &&& blk.instructions@.len() == 3
    &&& blk.instructions@[0] is Load
    &&& (blk.instructions@[1] matches Instruction::Compare { op, right, .. } && op == (
    if inclusive {
        CompareOp::Le
    } else {
        CompareOp::Lt
    }) && right == end_val)
    &&& blk.instructions@[2] is CondBranch
}

/// Lowers one body statement.
fn lower_stmt(
    ctx: &mut LoweringContext,
    func: &mut Function,
    vars: &mut Vec<(String, Value)>,
    stmt: &Stmt,
    fuel: u64,
)
    requires
        fn_wf(*old(func)),
    ensures
        fn_wf(*final(func)),
        extends_frozen(*old(func), *final(func)),
        same_signature(*old(func), *final(func)),
        module_invariants(old(ctx).module) ==> module_invariants(final(ctx).module),
        module_extended(old(ctx).module, final(ctx).module),
        (fuel > 0 && stmt matches Stmt::Return { .. })
            ==> (final(func).blocks@.last().instructions@.len() > 0
            && final(func).blocks@.last().instructions@.last() matches Instruction::Return(_)),
        (fuel > 0 && stmt matches Stmt::Return { value: None, .. })
            ==> final(func).blocks@.last().instructions@.last()
            == Instruction::Return(Value::Void),
    decreases fuel,
{
    if fuel == 0 {
        return;
    }
    let f = fuel - 1;
    let ghost base = *old(func);

    match stmt {
        Stmt::Let { name, ty, value, mutable: _, span: _ } => {
            let ir_ty: IrType = match ty {
                Some(t) => IrType::from_mendes_type(t),
                None => {
                    match infer_expr_type(value, f) {
                        Some(t) => t,
                        None => IrType::I64,
                    }
                },
            };

            func.add_local(name.clone(), ir_ty.clone());
            func.emit(Instruction::Alloca { dest: name.clone(), ty: ir_ty });

            let ghost pre = *func;
            let val = lower_expr(ctx, func, vars, value, f);
            proof {
                crate::ir::module::lemma_extends_frozen_trans(base, pre, *func);
            }
            func.emit(
                Instruction::Store { value: val.clone(), ptr: Value::Local(name.clone()) },
            );
            assoc_set(vars, name.clone(), val);
        },
        Stmt::Return { value, span: _ } => {
            let val: Value = match value {
                Some(e) => {
                    let ghost pre = *func;
                    let v = lower_expr(ctx, func, vars, e, f);
                    proof {
                        crate::ir::module::lemma_extends_frozen_trans(base, pre, *func);
                    }
                    v
                },
                None => Value::Void,
            };
            func.emit(Instruction::Return(val));
        },
        Stmt::If { condition, then_block, else_block, span: _ } => {
            let cond = lower_expr(ctx, func, vars, condition, f);

            let then_label = ctx.new_label("then");
            let else_label = ctx.new_label("else");
            let end_label = ctx.new_label("endif");

            let else_target: String = if else_block.is_some() {
                else_label.clone()
            } else {
                end_label.clone()
            };
            let ghost p1 = *func;
            func.emit(
                Instruction::CondBranch {
                    cond,
                    then_label: then_label.clone(),
                    else_label: else_target,
                },
            );
            proof {
                crate::ir::module::lemma_extends_frozen_trans(base, p1, *func);
            }

            let ghost p2 = *func;
            func.new_block(then_label.as_str());
            proof {
                crate::ir::module::lemma_extends_frozen_trans(base, p2, *func);
            }
            let ghost p3 = *func;
            lower_body_stmts(ctx, func, vars, then_block, f);
            proof {
                crate::ir::module::lemma_extends_frozen_trans(base, p3, *func);
            }
            if !func.current_block().is_terminated() {
                let ghost p4 = *func;
                func.emit(Instruction::Branch { target: end_label.clone() });
                proof {
                    crate::ir::module::lemma_extends_frozen_trans(base, p4, *func);
                }
            }

            match else_block {
                Some(else_stmts) => {
                    let ghost p5 = *func;
                    func.new_block(else_label.as_str());
                    proof {
                        crate::ir::module::lemma_extends_frozen_trans(base, p5, *func);
                    }
                    let ghost p6 = *func;
                    lower_body_stmts(ctx, func, vars, else_stmts, f);
                    proof {
                        crate::ir::module::lemma_extends_frozen_trans(base, p6, *func);
                    }
                    if !func.current_block().is_terminated() {
                        let ghost p7 = *func;
                        func.emit(Instruction::Branch { target: end_label.clone() });
                        proof {
                            crate::ir::module::lemma_extends_frozen_trans(base, p7, *func);
                        }
                    }
                },
                None => {},
            }

            let ghost p8 = *func;
            func.new_block(end_label.as_str());
            proof {
                crate::ir::module::lemma_extends_frozen_trans(base, p8, *func);
            }
        },
        Stmt::While { condition, body, span: _ } => {
            let cond_label = ctx.new_label("while_cond");
            let body_label = ctx.new_label("while_body");
            let end_label = ctx.new_label("while_end");

            func.emit(Instruction::Branch { target: cond_label.clone() });

            let ghost p1 = *func;
            func.new_block(cond_label.as_str());
            proof {
                crate::ir::module::lemma_extends_frozen_trans(base, p1, *func);
            }
            let ghost p2 = *func;
            let cond = lower_expr(ctx, func, vars, condition, f);
            proof {
                crate::ir::module::lemma_extends_frozen_trans(base, p2, *func);
            }
            let ghost p3 = *func;
            func.emit(
                Instruction::CondBranch {
                    cond,
                    then_label: body_label.clone(),
                    else_label: end_label.clone(),
                },
            );
            proof {
                crate::ir::module::lemma_extends_frozen_trans(base, p3, *func);
            }

            let ghost p4 = *func;
            func.new_block(body_label.as_str());
            proof {
                crate::ir::module::lemma_extends_frozen_trans(base, p4, *func);
            }
            let ghost p5 = *func;
            lower_body_stmts(ctx, func, vars, body, f);
            proof {
                crate::ir::module::lemma_extends_frozen_trans(base, p5, *func);
            }
            if !func.current_block().is_terminated() {
                let ghost p6 = *func;
                func.emit(Instruction::Branch { target: cond_label.clone() });
                proof {
                    crate::ir::module::lemma_extends_frozen_trans(base, p6, *func);
                }
            }

            let ghost p7 = *func;
            func.new_block(end_label.as_str());
            proof {
                crate::ir::module::lemma_extends_frozen_trans(base, p7, *func);
            }
        },
        Stmt::For { var, iter, body, span: _ } => {
            match iter {
                Expr::Range { start, end, inclusive, span: _ } => {
                    lower_for_range(ctx, func, vars, var, start, end, *inclusive, body, f);
                },
                _ => {
                    lower_for_iter(ctx, func, vars, var, iter, body, f);
                },
            }
        },
        Stmt::Expr(expr) => {
            lower_expr(ctx, func, vars, expr, f);
        },
        _ => {},
    }
}

/// Lowers a sequence of nested body statements.
fn lower_body_stmts(
    ctx: &mut LoweringContext,
    func: &mut Function,
    vars: &mut Vec<(String, Value)>,
    body: &Vec<Stmt>,
    fuel: u64,
)
    requires
        fn_wf(*old(func)),
    ensures
        fn_wf(*final(func)),
        extends_frozen(*old(func), *final(func)),
        same_signature(*old(func), *final(func)),
        module_invariants(old(ctx).module) ==> module_invariants(final(ctx).module),
        module_extended(old(ctx).module, final(ctx).module),
    decreases fuel,
{
    if fuel == 0 {
        return;
    }
    let f = fuel - 1;
    let ghost base = *old(func);
    let mut i: usize = 0;
    while i < body.len()
        invariant
            i <= body@.len(),
            fn_wf(*func),
            extends_frozen(base, *func),
            same_signature(*old(func), *func),
            module_invariants(old(ctx).module) ==> module_invariants(ctx.module),
            module_extended(old(ctx).module, ctx.module),
            f < fuel,
        decreases body@.len() - i,
    {
        let ghost pre = *func;
        lower_stmt(ctx, func, vars, &body[i], f);
        proof {
            crate::ir::module::lemma_extends_frozen_trans(base, pre, *func);
        }
        i = i + 1;
    }
}

/// Lowers a bounded for loop over a range. The loop's condition block
/// compares the induction variable with `le` against the bound when the
/// range is inclusive and `lt` otherwise; a literal bound appears in the
/// comparison as the same constant.
fn lower_for_range(
    ctx: &mut LoweringContext,
    func: &mut Function,
    vars: &mut Vec<(String, Value)>,
    var: &String,
    start: &Option<Box<Expr>>,
    end: &Option<Box<Expr>>,
    inclusive: bool,
    body: &Vec<Stmt>,
    fuel: u64,
)
    requires
        fn_wf(*old(func)),
    ensures
        fn_wf(*final(func)),
        extends_frozen(*old(func), *final(func)),
        same_signature(*old(func), *final(func)),
        module_invariants(old(ctx).module) ==> module_invariants(final(ctx).module),
        module_extended(old(ctx).module, final(ctx).module),
        fuel > 0 ==> (match end {
            Some(e) => **e matches Expr::IntLit(v, _) ==> exists|b: int|
                0 <= b < final(func).blocks@.len() && for_cond_shape(
                    #[trigger] final(func).blocks@[b],
                    inclusive,
                    Value::ConstInt(v),
                ),
            None => true,
        }),
        fuel > 0 ==> final(func).blocks@.len() >= old(func).blocks@.len() + 4,
        fuel > 0 ==> final(func).blocks@.last().label@ == "for_end_"@ + crate::text::spec_dec(
            old(func).spec_next_temp() as nat,
        ),
    decreases fuel,
{
    if fuel == 0 {
        return;
    }
    let f = fuel - 1;
    let ghost base = *old(func);

    let loop_id = func.new_temp();
    let idtext = u64_to_dec(loop_id as u64);
    let mut cond_label = "for_cond_".to_owned();
    push_str(&mut cond_label, idtext.as_str());
    let mut body_label = "for_body_".to_owned();
    push_str(&mut body_label, idtext.as_str());
    let mut inc_label = "for_inc_".to_owned();
    push_str(&mut inc_label, idtext.as_str());
    let mut end_label = "for_end_".to_owned();
    push_str(&mut end_label, idtext.as_str());

    let start_val: Value = match start {
        Some(s) => {
            let ghost pre = *func;
            let v = lower_expr(ctx, func, vars, s, f);
            proof {
                crate::ir::module::lemma_extends_frozen_trans(base, pre, *func);
            }
            v
        },
        None => Value::ConstInt(0),
    };

    let end_val: Value = match end {
        Some(e) => {
            let ghost pre = *func;
            let v = lower_expr(ctx, func, vars, e, f);
            proof {
                crate::ir::module::lemma_extends_frozen_trans(base, pre, *func);
            }
            v
        },
        None => Value::ConstInt(0x7fff_ffff_ffff_ffffi64),
    };
    let ghost gend_val = end_val;

    // The induction variable.
    func.add_local(var.clone(), IrType::I64);
    func.emit(Instruction::Alloca { dest: var.clone(), ty: IrType::I64 });
    func.emit(Instruction::Store { value: start_val, ptr: Value::Local(var.clone()) });
    assoc_set(vars, var.clone(), Value::Local(var.clone()));

    func.emit(Instruction::Branch { target: cond_label.clone() });

    // Condition block: load, compare, branch.
    func.new_block(cond_label.as_str());
    let current_val = func.new_temp();
    func.emit(
        Instruction::Load { dest: current_val, ptr: Value::Local(var.clone()), ty: IrType::I64 },
    );
    let cmp_op = if inclusive {
        CompareOp::Le
    } else {
        CompareOp::Lt
    };
    let cmp_result = func.new_temp();
    func.emit(
        Instruction::Compare {
            dest: cmp_result,
            op: cmp_op,
            left: Value::Temp(current_val),
            right: end_val,
        },
    );
    func.emit(
        Instruction::CondBranch {
            cond: Value::Temp(cmp_result),
            then_label: body_label.clone(),
            else_label: end_label.clone(),
        },
    );

    proof {
        crate::ir::module::lemma_extends_frozen_trans(base, base, *func);
    }
    let ghost cond_idx = func.blocks@.len() - 1;
    let ghost cond_block = func.blocks@.last();
    proof {
        assert(for_cond_shape(cond_block, inclusive, gend_val));
    }

    // Body block.
    let ghost p1 = *func;
    func.new_block(body_label.as_str());
    proof {
        crate::ir::module::lemma_extends_frozen_trans(base, p1, *func);
        assert(func.blocks@[cond_idx] == cond_block);
    }
    let ghost p2 = *func;
    lower_body_stmts(ctx, func, vars, body, f);
    proof {
        crate::ir::module::lemma_extends_frozen_trans(base, p2, *func);
        assert(func.blocks@[cond_idx] == cond_block);
    }
    let ghost p3 = *func;
    func.emit(Instruction::Branch { target: inc_label.clone() });
    proof {
        crate::ir::module::lemma_extends_frozen_trans(base, p3, *func);
        assert(func.blocks@[cond_idx] == cond_block);
    }

    // Increment block.
    let ghost p4 = *func;
    func.new_block(inc_label.as_str());
    proof {
        crate::ir::module::lemma_extends_frozen_trans(base, p4, *func);
        assert(func.blocks@[cond_idx] == cond_block);
    }
    let inc_val = func.new_temp();
    func.emit(
        Instruction::Load { dest: inc_val, ptr: Value::Local(var.clone()), ty: IrType::I64 },
    );
    let new_val = func.new_temp();
    func.emit(
        Instruction::Binary {
            dest: new_val,
            op: BinaryOp::Add,
            left: Value::Temp(inc_val),
            right: Value::ConstInt(1),
        },
    );
    func.emit(Instruction::Store { value: Value::Temp(new_val), ptr: Value::Local(var.clone()) });
    func.emit(Instruction::Branch { target: cond_label });

    // End block.
    let ghost p5 = *func;
    func.new_block(end_label.as_str());
    proof {
        crate::ir::module::lemma_extends_frozen_trans(base, p5, *func);
        assert(end_label@ =~= "for_end_"@ + crate::text::spec_dec(
            old(func).spec_next_temp() as nat,
        ));
        assert(func.blocks@[cond_idx] == cond_block);
        match end {
            Some(e) => {
                if **e matches Expr::IntLit(v, _) {
                    assert(gend_val == Value::ConstInt(e->IntLit_0));
                    assert(for_cond_shape(func.blocks@[cond_idx], inclusive, gend_val));
                }
            },
            None => {},
        }
    }
}

/// Lowers a for loop over an array-valued expression as an index-based
/// loop: an implicit index local, a length lookup, a bounds comparison,
/// element extraction, and an index increment.
fn lower_for_iter(
    ctx: &mut LoweringContext,
    func: &mut Function,
    vars: &mut Vec<(String, Value)>,
    var: &String,
    iter: &Expr,
    body: &Vec<Stmt>,
    fuel: u64,
)
    requires
        fn_wf(*old(func)),
    ensures
        fn_wf(*final(func)),
        extends_frozen(*old(func), *final(func)),
        same_signature(*old(func), *final(func)),
        module_invariants(old(ctx).module) ==> module_invariants(final(ctx).module),
        module_extended(old(ctx).module, final(ctx).module),
        fuel > 0 ==> final(func).blocks@.len() >= old(func).blocks@.len() + 4,
        fuel > 0 ==> final(func).blocks@.last().label@ == "for_end_"@ + crate::text::spec_dec(
            old(func).spec_next_temp() as nat,
        ),
    decreases fuel,
{
    if fuel == 0 {
        return;
    }
    let f = fuel - 1;
    let ghost base = *old(func);

    let loop_id = func.new_temp();
    let idtext = u64_to_dec(loop_id as u64);
    let mut cond_label = "for_cond_".to_owned();
    push_str(&mut cond_label, idtext.as_str());
    let mut body_label = "for_body_".to_owned();
    push_str(&mut body_label, idtext.as_str());
    let mut inc_label = "for_inc_".to_owned();
    push_str(&mut inc_label, idtext.as_str());
    let mut end_label = "for_end_".to_owned();
    push_str(&mut end_label, idtext.as_str());

    let ghost pre0 = *func;
    let iter_val = lower_expr(ctx, func, vars, iter, f);
    proof {
        crate::ir::module::lemma_extends_frozen_trans(base, pre0, *func);
    }

    // Implicit index local.
    let mut idx_var = "__idx_".to_owned();
    push_str(&mut idx_var, idtext.as_str());
    func.add_local(idx_var.clone(), IrType::I64);
    func.emit(Instruction::Alloca { dest: idx_var.clone(), ty: IrType::I64 });
    func.emit(
        Instruction::Store { value: Value::ConstInt(0), ptr: Value::Local(idx_var.clone()) },
    );

    // Loop variable.
    func.add_local(var.clone(), IrType::I64);
    func.emit(Instruction::Alloca { dest: var.clone(), ty: IrType::I64 });
    assoc_set(vars, var.clone(), Value::Local(var.clone()));

    // Length lookup through the `len` builtin.
    let len_temp = func.new_temp();
    let mut len_args: Vec<Value> = Vec::new();
    len_args.push(iter_val.clone());
    func.emit(Instruction::Call { dest: Some(len_temp), func: "len".to_owned(), args: len_args });

    func.emit(Instruction::Branch { target: cond_label.clone() });

    // Condition block: index below length.
    func.new_block(cond_label.as_str());
    let current_idx = func.new_temp();
    func.emit(
        Instruction::Load {
            dest: current_idx,
            ptr: Value::Local(idx_var.clone()),
            ty: IrType::I64,
        },
    );
    let cmp_result = func.new_temp();
    func.emit(
        Instruction::Compare {
            dest: cmp_result,
            op: CompareOp::Lt,
            left: Value::Temp(current_idx),
            right: Value::Temp(len_temp),
        },
    );
    func.emit(
        Instruction::CondBranch {
            cond: Value::Temp(cmp_result),
            then_label: body_label.clone(),
            else_label: end_label.clone(),
        },
    );

    // Body block: extract the element, then run the body.
    let ghost p1 = *func;
    func.new_block(body_label.as_str());
    proof {
        crate::ir::module::lemma_extends_frozen_trans(base, p1, *func);
    }
    let elem_temp = func.new_temp();
    func.emit(
        Instruction::GetElement {
            dest: elem_temp,
            ptr: iter_val,
            index: Value::Temp(current_idx),
        },
    );
    func.emit(
        Instruction::Store { value: Value::Temp(elem_temp), ptr: Value::Local(var.clone()) },
    );

    let ghost p2 = *func;
    lower_body_stmts(ctx, func, vars, body, f);
    proof {
        crate::ir::module::lemma_extends_frozen_trans(base, p2, *func);
    }

    let ghost p3 = *func;
    func.emit(Instruction::Branch { target: inc_label.clone() });
    proof {
        crate::ir::module::lemma_extends_frozen_trans(base, p3, *func);
    }

    // Increment block.
    let ghost p4 = *func;
    func.new_block(inc_label.as_str());
    proof {
        crate::ir::module::lemma_extends_frozen_trans(base, p4, *func);
    }
    let inc_idx = func.new_temp();
    func.emit(
        Instruction::Load { dest: inc_idx, ptr: Value::Local(idx_var.clone()), ty: IrType::I64 },
    );
    let new_idx = func.new_temp();
    func.emit(
        Instruction::Binary {
            dest: new_idx,
            op: BinaryOp::Add,
            left: Value::Temp(inc_idx),
            right: Value::ConstInt(1),
        },
    );
    func.emit(
        Instruction::Store { value: Value::Temp(new_idx), ptr: Value::Local(idx_var.clone()) },
    );
    func.emit(Instruction::Branch { target: cond_label });

    // End block.
    let ghost p5 = *func;
    func.new_block(end_label.as_str());
    proof {
        crate::ir::module::lemma_extends_frozen_trans(base, p5, *func);
        assert(end_label@ =~= "for_end_"@ + crate::text::spec_dec(
            old(func).spec_next_temp() as nat,
        ));
    }
}

/// Infers an IR type from the shape of an initializer expression.
fn infer_expr_type(expr: &Expr, fuel: u64) -> (r: Option<IrType>)
    decreases fuel,
{
    if fuel == 0 {
        return None;
    }
    let f = fuel - 1;
    match expr {
        Expr::Closure { params, return_type, body: _, span: _ } => {
            let mut param_types: Vec<IrType> = Vec::new();
            let mut i: usize = 0;
            while i < params.len()
                invariant
                    i <= params@.len(),
                decreases params@.len() - i,
            {
                let t = match &params[i].ty {
                    Some(t) => IrType::from_mendes_type(t),
                    None => IrType::I64,
                };
                param_types.push(t);
                i = i + 1;
            }
            let ret_type = match return_type {
                Some(rt) => IrType::from_mendes_type(rt),
                None => IrType::I64,
            };
            Some(IrType::Function { params: param_types, ret: Box::new(ret_type) })
        },
        Expr::IntLit(_, _) => Some(IrType::I64),
        Expr::FloatLit(_, _) => Some(IrType::F64),
        Expr::BoolLit(_, _) => Some(IrType::Bool),
        Expr::StringLit(_, _) => Some(IrType::String),
        Expr::ArrayLit(elements, _) => {
            if elements.len() > 0 {
                let elem_type = match infer_expr_type(&elements[0], f) {
                    Some(t) => t,
                    None => IrType::I64,
                };
                Some(IrType::Array(Box::new(elem_type), elements.len()))
            } else {
                Some(IrType::Array(Box::new(IrType::I64), 0))
            }
        },
        _ => None,
    }
}


/// Lowers an expression and returns the value that holds its result. An
/// integer literal lowers to the same integer constant, without touching
/// the function under construction.
fn lower_expr(
    ctx: &mut LoweringContext,
    func: &mut Function,
    vars: &mut Vec<(String, Value)>,
    expr: &Expr,
    fuel: u64,
) -> (r: Value)
    requires
        fn_wf(*old(func)),
    ensures
        fn_wf(*final(func)),
        extends_frozen(*old(func), *final(func)),
        same_signature(*old(func), *final(func)),
        module_invariants(old(ctx).module) ==> module_invariants(final(ctx).module),
        module_extended(old(ctx).module, final(ctx).module),
        (expr matches Expr::IntLit(v, _) ==> r == Value::ConstInt(*v) && *final(func) == *old(
            func,
        )),
        (expr matches Expr::BoolLit(v, _) ==> r == Value::ConstBool(*v) && *final(func) == *old(
            func,
        )),
        expr matches Expr::FloatLit(t, _) ==> (r matches Value::ConstFloat(ft) && ft@ == t@
            && *final(func) == *old(func)),
        expr matches Expr::StringLit(sv, _) ==> (fuel > 0 ==> (r matches Value::ConstString(idx)
            && idx < final(ctx).module.string_table@.len()
            && final(ctx).module.string_table@[idx as int]@ == sv@
            && *final(func) == *old(func))),
    decreases fuel,
{
    if fuel == 0 {
        return match expr {
            Expr::IntLit(v, _) => Value::ConstInt(*v),
            Expr::BoolLit(v, _) => Value::ConstBool(*v),
            Expr::FloatLit(t, _) => Value::ConstFloat(t.clone()),
            _ => Value::Void,
        };
    }
    let f = fuel - 1;
    let ghost base = *old(func);

    match expr {
        Expr::IntLit(v, _) => Value::ConstInt(*v),
        Expr::FloatLit(t, _) => Value::ConstFloat(t.clone()),
        Expr::BoolLit(v, _) => Value::ConstBool(*v),
        Expr::StringLit(sv, _) => {
            let idx = ctx.module.add_string(sv.clone());
            Value::ConstString(idx)
        },
        Expr::OptionNone(_) => Value::Void,
        Expr::Ident(name, _) => {
            if assoc_contains(vars, name.as_str()) {
                let temp = func.new_temp();
                func.emit(
                    Instruction::Load {
                        dest: temp,
                        ptr: Value::Local(name.clone()),
                        ty: IrType::I64,
                    },
                );
                Value::Temp(temp)
            } else if param_named(func, name.as_str()) {
                Value::Local(name.clone())
            } else {
                Value::Global(name.clone())
            }
        },
        Expr::Binary { left, op, right, span: _ } => {
            let ghost p1 = *func;
            let left_val = lower_expr(ctx, func, vars, left, f);
            proof {
                crate::ir::module::lemma_extends_frozen_trans(base, p1, *func);
            }
            let ghost p2 = *func;
            let right_val = lower_expr(ctx, func, vars, right, f);
            proof {
                crate::ir::module::lemma_extends_frozen_trans(base, p2, *func);
            }
            let dest = func.new_temp();

            let ir_op: Option<BinaryOp> = match op {
                BinOp::Add | BinOp::AddAssign => Some(BinaryOp::Add),
                BinOp::Sub | BinOp::SubAssign => Some(BinaryOp::Sub),
                BinOp::Mul | BinOp::MulAssign => Some(BinaryOp::Mul),
                BinOp::Div | BinOp::DivAssign => Some(BinaryOp::Div),
                BinOp::Mod => Some(BinaryOp::Mod),
                BinOp::And => Some(BinaryOp::And),
                BinOp::Or => Some(BinaryOp::Or),
                _ => None,
            };

            match ir_op {
                Some(binary_op) => {
                    func.emit(
                        Instruction::Binary {
                            dest,
                            op: binary_op,
                            left: left_val,
                            right: right_val,
                        },
                    );
                    return Value::Temp(dest);
                },
                None => {},
            }

            let cmp_op: Option<CompareOp> = match op {
                BinOp::Eq => Some(CompareOp::Eq),
                BinOp::Ne => Some(CompareOp::Ne),
                BinOp::Lt => Some(CompareOp::Lt),
                BinOp::Le => Some(CompareOp::Le),
                BinOp::Gt => Some(CompareOp::Gt),
                BinOp::Ge => Some(CompareOp::Ge),
                _ => None,
            };

            match cmp_op {
                Some(compare_op) => {
                    func.emit(
                        Instruction::Compare {
                            dest,
                            op: compare_op,
                            left: left_val,
                            right: right_val,
                        },
                    );
                    return Value::Temp(dest);
                },
                None => {},
            }

            if matches!(op, BinOp::Assign) {
                match &**left {
                    Expr::Ident(name, _) => {
                        func.emit(
                            Instruction::Store {
                                value: right_val,
                                ptr: Value::Local(name.clone()),
                            },
                        );
                        return Value::Void;
                    },
                    _ => {},
                }
            }

            Value::Void
        },
        Expr::Unary { op, expr: inner, span: _ } => {
            let ghost p1 = *func;
            let val = lower_expr(ctx, func, vars, inner, f);
            proof {
                crate::ir::module::lemma_extends_frozen_trans(base, p1, *func);
            }
            let dest = func.new_temp();

            match op {
                UnaryOp::Neg => {
                    func.emit(Instruction::Neg { dest, value: val });
                },
                UnaryOp::Not => {
                    func.emit(Instruction::Not { dest, value: val });
                },
            }

            Value::Temp(dest)
        },
        Expr::Call { func: callee, args, span: _ } => {
            let func_name: String = match &**callee {
                Expr::Ident(name, _) => name.clone(),
                Expr::FieldAccess { object, field, .. } => {
                    // A call through fields, such as a database access,
                    // becomes a mangled builtin name.
                    let obj_name: String = match &**object {
                        Expr::Ident(n, _) => n.clone(),
                        Expr::FieldAccess { field: f2, .. } => f2.clone(),
                        _ => "unknown".to_owned(),
                    };
                    let mut s = "__".to_owned();
                    push_str(&mut s, obj_name.as_str());
                    push_char(&mut s, '_');
                    push_str(&mut s, field.as_str());
                    s
                },
                _ => "unknown".to_owned(),
            };

            let mut arg_values: Vec<Value> = Vec::new();
            let mut i: usize = 0;
            while i < args.len()
                invariant
                    i <= args@.len(),
                    fn_wf(*func),
                    extends_frozen(base, *func),
                    same_signature(*old(func), *func),
                    module_invariants(old(ctx).module) ==> module_invariants(ctx.module),
                    module_extended(old(ctx).module, ctx.module),
                    f < fuel,
                decreases args@.len() - i,
            {
                let ghost pre = *func;
                let v = lower_expr(ctx, func, vars, &args[i], f);
                proof {
                    crate::ir::module::lemma_extends_frozen_trans(base, pre, *func);
                }
                arg_values.push(v);
                i = i + 1;
            }

            let dest = func.new_temp();
            func.emit(Instruction::Call { dest: Some(dest), func: func_name, args: arg_values });

            Value::Temp(dest)
        },
        Expr::Await { expr: inner, span: _ } => {
            let ghost p1 = *func;
            let future = lower_expr(ctx, func, vars, inner, f);
            proof {
                crate::ir::module::lemma_extends_frozen_trans(base, p1, *func);
            }
            let dest = func.new_temp();
            func.emit(Instruction::Await { dest, future });
            Value::Temp(dest)
        },
        Expr::FieldAccess { object, field, span: _ } => {
            let ghost p1 = *func;
            let obj_val = lower_expr(ctx, func, vars, object, f);
            proof {
                crate::ir::module::lemma_extends_frozen_trans(base, p1, *func);
            }
            let dest = func.new_temp();

            // Resolve the struct name from the local's recorded type.
            let struct_name: String = match &**object {
                Expr::Ident(var_name, _) => {
                    match crate::assoc::assoc_get(&func.locals, var_name.as_str()) {
                        Some(ty) => {
                            match ty {
                                IrType::Struct(n) => n.clone(),
                                _ => "Unknown".to_owned(),
                            }
                        },
                        None => "Unknown".to_owned(),
                    }
                },
                _ => "Unknown".to_owned(),
            };

            let field_index: usize = match ctx.module.get_struct(struct_name.as_str()) {
                Some(sdef) => {
                    match sdef.field_index(field.as_str()) {
                        Some(i) => i,
                        None => 0,
                    }
                },
                None => 0,
            };

            func.emit(
                Instruction::GetField {
                    dest,
                    ptr: obj_val,
                    struct_name,
                    field_index,
                    field_name: field.clone(),
                },
            );

            Value::Temp(dest)
        },
        Expr::Index { object, index, span: _ } => {
            let ghost p1 = *func;
            let obj_val = lower_expr(ctx, func, vars, object, f);
            proof {
                crate::ir::module::lemma_extends_frozen_trans(base, p1, *func);
            }
            let ghost p2 = *func;
            let idx_val = lower_expr(ctx, func, vars, index, f);
            proof {
                crate::ir::module::lemma_extends_frozen_trans(base, p2, *func);
            }
            let dest = func.new_temp();
            func.emit(Instruction::GetElement { dest, ptr: obj_val, index: idx_val });
            Value::Temp(dest)
        },
        Expr::Borrow { expr: inner, mutable: _, span: _ } => {
            // A borrow is a pointer to the borrowed place.
            match &**inner {
                Expr::Ident(name, _) => {
                    return Value::Local(name.clone());
                },
                _ => {},
            }
            let ghost p1 = *func;
            let v = lower_expr(ctx, func, vars, inner, f);
            proof {
                crate::ir::module::lemma_extends_frozen_trans(base, p1, *func);
            }
            v
        },
        Expr::StructLit { name, fields, span: _ } => {
            let dest = func.new_temp();
            func.emit(Instruction::NewStruct { dest, struct_name: name.clone() });

            let has_def = match ctx.module.get_struct(name.as_str()) {
                Some(_) => true,
                None => false,
            };
            if has_def {
                let mut i: usize = 0;
                while i < fields.len()
                    invariant
                        i <= fields@.len(),
                        fn_wf(*func),
                        extends_frozen(base, *func),
                        same_signature(*old(func), *func),
                        module_invariants(old(ctx).module) ==> module_invariants(ctx.module),
                        module_extended(old(ctx).module, ctx.module),
                        f < fuel,
                    decreases fields@.len() - i,
                {
                    let ghost pre = *func;
                    let val = lower_expr(ctx, func, vars, &fields[i].1, f);
                    proof {
                        crate::ir::module::lemma_extends_frozen_trans(base, pre, *func);
                    }
                    let idx_opt: Option<usize> = match ctx.module.get_struct(name.as_str()) {
                        Some(sdef) => sdef.field_index(fields[i].0.as_str()),
                        None => None,
                    };
                    match idx_opt {
                        Some(idx) => {
                            func.emit(
                                Instruction::SetField {
                                    ptr: Value::Temp(dest),
                                    struct_name: name.clone(),
                                    field_index: idx,
                                    field_name: fields[i].0.clone(),
                                    value: val,
                                },
                            );
                        },
                        None => {},
                    }
                    i = i + 1;
                }
            }

            Value::Temp(dest)
        },
        Expr::ArrayLit(elements, _) => {
            let dest = func.new_temp();
            let nlen = elements.len() as u64;
            let size: i64 = if nlen <= 0x7fff_ffff_ffff_ffffu64 {
                nlen as i64
            } else {
                0x7fff_ffff_ffff_ffffi64
            };
            func.emit(
                Instruction::NewArray {
                    dest,
                    elem_type: IrType::I64,
                    size: Value::ConstInt(size),
                },
            );

            let mut i: usize = 0;
            while i < elements.len()
                invariant
                    i <= elements@.len(),
                    fn_wf(*func),
                    extends_frozen(base, *func),
                    same_signature(*old(func), *func),
                    module_invariants(old(ctx).module) ==> module_invariants(ctx.module),
                    module_extended(old(ctx).module, ctx.module),
                    f < fuel,
                decreases elements@.len() - i,
            {
                let ghost pre = *func;
                let val = lower_expr(ctx, func, vars, &elements[i], f);
                proof {
                    crate::ir::module::lemma_extends_frozen_trans(base, pre, *func);
                }
                let iu = i as u64;
                let idx: i64 = if iu <= 0x7fff_ffff_ffff_ffffu64 {
                    iu as i64
                } else {
                    0
                };
                func.emit(
                    Instruction::SetElement {
                        ptr: Value::Temp(dest),
                        index: Value::ConstInt(idx),
                        value: val,
                    },
                );
                i = i + 1;
            }

            Value::Temp(dest)
        },
        Expr::ResultOk(inner, _) => {
            let ghost p1 = *func;
            let val = lower_expr(ctx, func, vars, inner, f);
            proof {
                crate::ir::module::lemma_extends_frozen_trans(base, p1, *func);
            }
            let dest = func.new_temp();
            let mut args: Vec<Value> = Vec::new();
            args.push(val);
            func.emit(
                Instruction::Call { dest: Some(dest), func: "__result_ok".to_owned(), args },
            );
            Value::Temp(dest)
        },
        Expr::ResultErr(inner, _) => {
            let ghost p1 = *func;
            let val = lower_expr(ctx, func, vars, inner, f);
            proof {
                crate::ir::module::lemma_extends_frozen_trans(base, p1, *func);
            }
            let dest = func.new_temp();
            let mut args: Vec<Value> = Vec::new();
            args.push(val);
            func.emit(
                Instruction::Call { dest: Some(dest), func: "__result_err".to_owned(), args },
            );
            Value::Temp(dest)
        },
        Expr::OptionSome(inner, _) => {
            let ghost p1 = *func;
            let val = lower_expr(ctx, func, vars, inner, f);
            proof {
                crate::ir::module::lemma_extends_frozen_trans(base, p1, *func);
            }
            let dest = func.new_temp();
            let mut args: Vec<Value> = Vec::new();
            args.push(val);
            func.emit(
                Instruction::Call { dest: Some(dest), func: "__option_some".to_owned(), args },
            );
            Value::Temp(dest)
        },
        Expr::MethodCall { object, method, args, span: _ } => {
            let ghost p1 = *func;
            let obj_val = lower_expr(ctx, func, vars, object, f);
            proof {
                crate::ir::module::lemma_extends_frozen_trans(base, p1, *func);
            }

            let mut arg_values: Vec<Value> = Vec::new();
            arg_values.push(obj_val);
            let mut i: usize = 0;
            while i < args.len()
                invariant
                    i <= args@.len(),
                    fn_wf(*func),
                    extends_frozen(base, *func),
                    same_signature(*old(func), *func),
                    module_invariants(old(ctx).module) ==> module_invariants(ctx.module),
                    module_extended(old(ctx).module, ctx.module),
                    f < fuel,
                decreases args@.len() - i,
            {
                let ghost pre = *func;
                let v = lower_expr(ctx, func, vars, &args[i], f);
                proof {
                    crate::ir::module::lemma_extends_frozen_trans(base, pre, *func);
                }
                arg_values.push(v);
                i = i + 1;
            }

            let mut method_name = "__method_".to_owned();
            push_str(&mut method_name, method.as_str());

            let dest = func.new_temp();
            func.emit(
                Instruction::Call { dest: Some(dest), func: method_name, args: arg_values },
            );

            Value::Temp(dest)
        },
        Expr::Match { expr: scrutinee_expr, arms, span: _ } => {
            let ghost p1 = *func;
            let scrutinee = lower_expr(ctx, func, vars, scrutinee_expr, f);
            proof {
                crate::ir::module::lemma_extends_frozen_trans(base, p1, *func);
            }

            let end_label = ctx.new_label("match_end");
            let result_dest = func.new_temp();

            let mut arm_labels: Vec<String> = Vec::new();
            let ghost fpre = *func;
            let ghost mpre = ctx.module;
            let mut li: usize = 0;
            while li < arms.len()
                invariant
                    li <= arms@.len(),
                    arm_labels@.len() == li,
                    *func == fpre,
                    ctx.module == mpre,
                decreases arms@.len() - li,
            {
                let mut prefix = "match_arm".to_owned();
                let n = u64_to_dec(li as u64);
                push_str(&mut prefix, n.as_str());
                let lbl = ctx.new_label(prefix.as_str());
                arm_labels.push(lbl);
                li = li + 1;
            }
            arm_labels.push(end_label.clone());

            let mut ai: usize = 0;
            while ai < arms.len()
                invariant
                    ai <= arms@.len(),
                    arm_labels@.len() == arms@.len() + 1,
                    fn_wf(*func),
                    extends_frozen(base, *func),
                    same_signature(*old(func), *func),
                    module_invariants(old(ctx).module) ==> module_invariants(ctx.module),
                    module_extended(old(ctx).module, ctx.module),
                    f < fuel,
                decreases arms@.len() - ai,
            {
                let ghost ibase = *func;
                let arm_label = arm_labels[ai].clone();
                let next_label = arm_labels[ai + 1].clone();

                let matched = lower_pattern_check(ctx, func, vars, &arms[ai].pattern, &scrutinee, f);
                proof {
                    crate::ir::module::lemma_extends_frozen_trans(base, ibase, *func);
                }

                let final_cond: Value = match &arms[ai].guard {
                    Some(guard) => {
                        let ghost pre = *func;
                        let guard_val = lower_expr(ctx, func, vars, guard, f);
                        proof {
                            crate::ir::module::lemma_extends_frozen_trans(base, pre, *func);
                        }
                        let temp = func.new_temp();
                        func.emit(
                            Instruction::Binary {
                                dest: temp,
                                op: BinaryOp::And,
                                left: matched,
                                right: guard_val,
                            },
                        );
                        Value::Temp(temp)
                    },
                    None => matched,
                };

                func.emit(
                    Instruction::CondBranch {
                        cond: final_cond,
                        then_label: arm_label.clone(),
                        else_label: next_label,
                    },
                );

                let ghost pre2 = *func;
                func.new_block(arm_label.as_str());
                proof {
                    crate::ir::module::lemma_extends_frozen_trans(base, pre2, *func);
                }

                let ghost pre3 = *func;
                bind_pattern_vars(ctx, func, vars, &arms[ai].pattern, &scrutinee, f);
                proof {
                    crate::ir::module::lemma_extends_frozen_trans(base, pre3, *func);
                }

                // The arm body: its trailing expression or returned value
                // becomes the arm's result.
                let mut arm_result = Value::Void;
                let mut sj: usize = 0;
                while sj < arms[ai].body.len()
                    invariant
                        ai < arms@.len(),
                        sj <= arms@[ai as int].body@.len(),
                        fn_wf(*func),
                        extends_frozen(base, *func),
                        same_signature(*old(func), *func),
                        module_invariants(old(ctx).module) ==> module_invariants(ctx.module),
                        module_extended(old(ctx).module, ctx.module),
                        f < fuel,
                    decreases arms@[ai as int].body@.len() - sj,
                {
                    let ghost pre4 = *func;
                    match &arms[ai].body[sj] {
                        Stmt::Return { value, .. } => {
                            match value {
                                Some(v) => {
                                    arm_result = lower_expr(ctx, func, vars, v, f);
                                },
                                None => {},
                            }
                        },
                        Stmt::Expr(e) => {
                            arm_result = lower_expr(ctx, func, vars, e, f);
                        },
                        _ => {
                            lower_stmt(ctx, func, vars, &arms[ai].body[sj], f);
                        },
                    }
                    proof {
                        crate::ir::module::lemma_extends_frozen_trans(base, pre4, *func);
                    }
                    sj = sj + 1;
                }

                func.emit(
                    Instruction::Store { value: arm_result, ptr: Value::Temp(result_dest) },
                );

                if !func.current_block().is_terminated() {
                    let ghost pre5 = *func;
                    func.emit(Instruction::Branch { target: end_label.clone() });
                    proof {
                        crate::ir::module::lemma_extends_frozen_trans(base, pre5, *func);
                    }
                }

                ai = ai + 1;
            }

            let ghost p9 = *func;
            func.new_block(end_label.as_str());
            proof {
                crate::ir::module::lemma_extends_frozen_trans(base, p9, *func);
            }
            Value::Temp(result_dest)
        },
        Expr::Try { expr: inner, span: _ } => {
            let ghost p1 = *func;
            let inner_val = lower_expr(ctx, func, vars, inner, f);
            proof {
                crate::ir::module::lemma_extends_frozen_trans(base, p1, *func);
            }

            let ok_label = ctx.new_label("try_ok");
            let err_label = ctx.new_label("try_err");
            let end_label = ctx.new_label("try_end");

            let is_ok = func.new_temp();
            let mut args1: Vec<Value> = Vec::new();
            args1.push(inner_val.clone());
            func.emit(
                Instruction::Call {
                    dest: Some(is_ok),
                    func: "__try_is_ok".to_owned(),
                    args: args1,
                },
            );

            func.emit(
                Instruction::CondBranch {
                    cond: Value::Temp(is_ok),
                    then_label: ok_label.clone(),
                    else_label: err_label.clone(),
                },
            );

            // Error path: propagate and return early.
            let ghost p2 = *func;
            func.new_block(err_label.as_str());
            proof {
                crate::ir::module::lemma_extends_frozen_trans(base, p2, *func);
            }
            let err_val = func.new_temp();
            let mut args2: Vec<Value> = Vec::new();
            args2.push(inner_val.clone());
            func.emit(
                Instruction::Call {
                    dest: Some(err_val),
                    func: "__try_propagate".to_owned(),
                    args: args2,
                },
            );
            func.emit(Instruction::Return(Value::Temp(err_val)));

            // Success path: unwrap and continue.
            let ghost p3 = *func;
            func.new_block(ok_label.as_str());
            proof {
                crate::ir::module::lemma_extends_frozen_trans(base, p3, *func);
            }
            let result = func.new_temp();
            let mut args3: Vec<Value> = Vec::new();
            args3.push(inner_val);
            func.emit(
                Instruction::Call {
                    dest: Some(result),
                    func: "__try_unwrap".to_owned(),
                    args: args3,
                },
            );
            func.emit(Instruction::Branch { target: end_label.clone() });

            let ghost p4 = *func;
            func.new_block(end_label.as_str());
            proof {
                crate::ir::module::lemma_extends_frozen_trans(base, p4, *func);
            }
            Value::Temp(result)
        },
        Expr::StringInterpolation { parts, span: _ } => {
            let dest = func.new_temp();

            let mut format_parts: Vec<Value> = Vec::new();
            let mut i: usize = 0;
            while i < parts.len()
                invariant
                    i <= parts@.len(),
                    fn_wf(*func),
                    extends_frozen(base, *func),
                    same_signature(*old(func), *func),
                    module_invariants(old(ctx).module) ==> module_invariants(ctx.module),
                    module_extended(old(ctx).module, ctx.module),
                    f < fuel,
                decreases parts@.len() - i,
            {
                let ghost pre = *func;
                match &parts[i] {
                    StringPart::Literal(sv) => {
                        let idx = ctx.module.add_string(sv.clone());
                        format_parts.push(Value::ConstString(idx));
                    },
                    StringPart::Expr(e) => {
                        let val = lower_expr(ctx, func, vars, e, f);
                        format_parts.push(val);
                    },
                }
                proof {
                    crate::ir::module::lemma_extends_frozen_trans(base, pre, *func);
                }
                i = i + 1;
            }

            func.emit(
                Instruction::Call {
                    dest: Some(dest),
                    func: "__string_format".to_owned(),
                    args: format_parts,
                },
            );

            Value::Temp(dest)
        },
        Expr::Closure { params, return_type: _, body, span: _ } => {
            // A closure becomes a separate function with a unique name; the
            // expression's value is a reference to it.
            let closure_id = ctx.new_closure_id();
            let mut closure_name = "__closure_".to_owned();
            let n = u64_to_dec(closure_id as u64);
            push_str(&mut closure_name, n.as_str());

            let mut closure_func = Function::new(closure_name.as_str(), IrType::I64, false);

            let mut i: usize = 0;
            while i < params.len()
                invariant
                    i <= params@.len(),
                    fn_wf(closure_func),
                decreases params@.len() - i,
            {
                let ty = match &params[i].ty {
                    Some(t) => IrType::from_mendes_type(t),
                    None => IrType::I64,
                };
                closure_func.add_param(params[i].name.as_str(), ty);
                i = i + 1;
            }

            let mut closure_vars: Vec<(String, Value)> = Vec::new();
            match body {
                ClosureBody::Expr(e) => {
                    let result = lower_expr(ctx, &mut closure_func, &mut closure_vars, e, f);
                    closure_func.emit(Instruction::Return(result));
                },
                ClosureBody::Block(stmts) => {
                    lower_body_stmts(ctx, &mut closure_func, &mut closure_vars, stmts, f);
                    if !closure_func.current_block().is_terminated() {
                        closure_func.emit(Instruction::Return(Value::Void));
                    }
                },
            }

            ctx.add_closed_function(closure_func);

            Value::Global(closure_name)
        },
        Expr::Tuple { elements, span: _ } => {
            // A tuple lowers as a struct with positional fields.
            let mut tuple_type = "tuple_".to_owned();
            let n = u64_to_dec(elements.len() as u64);
            push_str(&mut tuple_type, n.as_str());
            let dest = func.new_temp();
            let mut dest_name = "__t".to_owned();
            let dn = u64_to_dec(dest as u64);
            push_str(&mut dest_name, dn.as_str());

            let mut element_values: Vec<Value> = Vec::new();
            let mut i: usize = 0;
            while i < elements.len()
                invariant
                    i <= elements@.len(),
                    fn_wf(*func),
                    extends_frozen(base, *func),
                    same_signature(*old(func), *func),
                    module_invariants(old(ctx).module) ==> module_invariants(ctx.module),
                    module_extended(old(ctx).module, ctx.module),
                    f < fuel,
                decreases elements@.len() - i,
            {
                let ghost pre = *func;
                let v = lower_expr(ctx, func, vars, &elements[i], f);
                proof {
                    crate::ir::module::lemma_extends_frozen_trans(base, pre, *func);
                }
                element_values.push(v);
                i = i + 1;
            }

            func.emit(
                Instruction::Alloca { dest: dest_name, ty: IrType::Struct(tuple_type.clone()) },
            );

            let mut j: usize = 0;
            while j < element_values.len()
                invariant
                    j <= element_values@.len(),
                    fn_wf(*func),
                    extends_frozen(base, *func),
                    same_signature(*old(func), *func),
                decreases element_values@.len() - j,
            {
                let mut fname = "field".to_owned();
                let fj = u64_to_dec(j as u64);
                push_str(&mut fname, fj.as_str());
                let ghost pre = *func;
                func.emit(
                    Instruction::SetField {
                        ptr: Value::Temp(dest),
                        struct_name: tuple_type.clone(),
                        field_index: j,
                        field_name: fname,
                        value: element_values[j].clone(),
                    },
                );
                proof {
                    crate::ir::module::lemma_extends_frozen_trans(base, pre, *func);
                }
                j = j + 1;
            }

            Value::Temp(dest)
        },
        Expr::Range { start, end, inclusive, span: _ } => {
            // A range lowers as a struct with start, end and inclusive
            // fields.
            let dest = func.new_temp();
            let mut dest_name = "__t".to_owned();
            let dn = u64_to_dec(dest as u64);
            push_str(&mut dest_name, dn.as_str());

            let start_val: Value = match start {
                Some(e) => {
                    let ghost pre = *func;
                    let v = lower_expr(ctx, func, vars, e, f);
                    proof {
                        crate::ir::module::lemma_extends_frozen_trans(base, pre, *func);
                    }
                    v
                },
                None => Value::ConstInt(0),
            };
            let end_val: Value = match end {
                Some(e) => {
                    let ghost pre = *func;
                    let v = lower_expr(ctx, func, vars, e, f);
                    proof {
                        crate::ir::module::lemma_extends_frozen_trans(base, pre, *func);
                    }
                    v
                },
                None => Value::ConstInt(0x7fff_ffff_ffff_ffffi64),
            };

            func.emit(
                Instruction::Alloca { dest: dest_name, ty: IrType::Struct("Range".to_owned()) },
            );

            func.emit(
                Instruction::SetField {
                    ptr: Value::Temp(dest),
                    struct_name: "Range".to_owned(),
                    field_index: 0,
                    field_name: "start".to_owned(),
                    value: start_val,
                },
            );
            func.emit(
                Instruction::SetField {
                    ptr: Value::Temp(dest),
                    struct_name: "Range".to_owned(),
                    field_index: 1,
                    field_name: "end".to_owned(),
                    value: end_val,
                },
            );
            func.emit(
                Instruction::SetField {
                    ptr: Value::Temp(dest),
                    struct_name: "Range".to_owned(),
                    field_index: 2,
                    field_name: "inclusive".to_owned(),
                    value: Value::ConstBool(*inclusive),
                },
            );

            Value::Temp(dest)
        },
    }
}

/// Whether the function has a parameter of the given name.
fn param_named(func: &Function, name: &str) -> (r: bool) {
    let mut i: usize = 0;
    while i < func.params.len()
        invariant
            i <= func.params@.len(),
        decreases func.params@.len() - i,
    {
        if string_is(&func.params[i].0, name) {
            return true;
        }
        i = i + 1;
    }
    false
}

/// Lowers a pattern check, producing a boolean value that tells whether
/// the scrutinee matches.
fn lower_pattern_check(
    ctx: &mut LoweringContext,
    func: &mut Function,
    vars: &mut Vec<(String, Value)>,
    pattern: &Pattern,
    scrutinee: &Value,
    fuel: u64,
) -> (r: Value)
    requires
        fn_wf(*old(func)),
    ensures
        fn_wf(*final(func)),
        extends_frozen(*old(func), *final(func)),
        same_signature(*old(func), *final(func)),
        module_invariants(old(ctx).module) ==> module_invariants(final(ctx).module),
        module_extended(old(ctx).module, final(ctx).module),
        (fuel > 0 && pattern is Wildcard) ==> (r == Value::ConstBool(true) && *final(func)
            == *old(func)),
    decreases fuel,
{
    if fuel == 0 {
        return Value::ConstBool(false);
    }
    let f = fuel - 1;
    let ghost base = *old(func);

    match pattern {
        Pattern::Wildcard(_) => Value::ConstBool(true),
        Pattern::Literal(e) => {
            let ghost p1 = *func;
            let lit_val = lower_expr(ctx, func, vars, e, f);
            proof {
                crate::ir::module::lemma_extends_frozen_trans(base, p1, *func);
            }
            let dest = func.new_temp();
            func.emit(
                Instruction::Compare {
                    dest,
                    op: CompareOp::Eq,
                    left: scrutinee.clone(),
                    right: lit_val,
                },
            );
            Value::Temp(dest)
        },
        Pattern::Ident { .. } => Value::ConstBool(true),
        Pattern::Variant { enum_name: _, variant, data: _, span: _ } => {
            // For the built-in option and result variants, check the tag
            // through the corresponding runtime helper; other variants use a
            // named discriminant helper.
            let helper: String = if string_is(variant, "None") {
                "__is_none".to_owned()
            } else if string_is(variant, "Some") {
                "__is_some".to_owned()
            } else if string_is(variant, "Ok") {
                "__is_ok".to_owned()
            } else if string_is(variant, "Err") {
                "__is_err".to_owned()
            } else {
                let mut s = "__is_variant_".to_owned();
                push_str(&mut s, variant.as_str());
                s
            };
            let dest = func.new_temp();
            let mut args: Vec<Value> = Vec::new();
            args.push(scrutinee.clone());
            func.emit(Instruction::Call { dest: Some(dest), func: helper, args });
            Value::Temp(dest)
        },
        Pattern::Or(patterns, _) => {
            if patterns.len() == 0 {
                return Value::ConstBool(false);
            }
            let ghost p1 = *func;
            let mut result = lower_pattern_check(ctx, func, vars, &patterns[0], scrutinee, f);
            proof {
                crate::ir::module::lemma_extends_frozen_trans(base, p1, *func);
            }
            let mut i: usize = 1;
            while i < patterns.len()
                invariant
                    1 <= i <= patterns@.len(),
                    fn_wf(*func),
                    extends_frozen(base, *func),
                    same_signature(*old(func), *func),
                    module_invariants(old(ctx).module) ==> module_invariants(ctx.module),
                    module_extended(old(ctx).module, ctx.module),
                    f < fuel,
                decreases patterns@.len() - i,
            {
                let ghost pre = *func;
                let check = lower_pattern_check(ctx, func, vars, &patterns[i], scrutinee, f);
                proof {
                    crate::ir::module::lemma_extends_frozen_trans(base, pre, *func);
                }
                let dest = func.new_temp();
                func.emit(
                    Instruction::Binary {
                        dest,
                        op: BinaryOp::Or,
                        left: result,
                        right: check,
                    },
                );
                result = Value::Temp(dest);
                i = i + 1;
            }
            result
        },
        Pattern::Tuple(patterns, _) => {
            if patterns.len() == 0 {
                return Value::ConstBool(true);
            }
            let mut result = Value::ConstBool(true);
            let mut i: usize = 0;
            while i < patterns.len()
                invariant
                    i <= patterns@.len(),
                    fn_wf(*func),
                    extends_frozen(base, *func),
                    same_signature(*old(func), *func),
                    module_invariants(old(ctx).module) ==> module_invariants(ctx.module),
                    module_extended(old(ctx).module, ctx.module),
                    f < fuel,
                decreases patterns@.len() - i,
            {
                let elem_dest = func.new_temp();
                let iu = i as u64;
                let idx: i64 = if iu <= 0x7fff_ffff_ffff_ffffu64 {
                    iu as i64
                } else {
                    0
                };
                func.emit(
                    Instruction::GetElement {
                        dest: elem_dest,
                        ptr: scrutinee.clone(),
                        index: Value::ConstInt(idx),
                    },
                );

                let ghost pre = *func;
                let elem_check = lower_pattern_check(
                    ctx,
                    func,
                    vars,
                    &patterns[i],
                    &Value::Temp(elem_dest),
                    f,
                );
                proof {
                    crate::ir::module::lemma_extends_frozen_trans(base, pre, *func);
                }
                let dest = func.new_temp();
                func.emit(
                    Instruction::Binary {
                        dest,
                        op: BinaryOp::And,
                        left: result,
                        right: elem_check,
                    },
                );
                result = Value::Temp(dest);
                i = i + 1;
            }
            result
        },
        Pattern::Struct { name: _, fields, span: _ } => {
            if fields.len() == 0 {
                return Value::ConstBool(true);
            }
            let mut result = Value::ConstBool(true);
            let mut i: usize = 0;
            while i < fields.len()
                invariant
                    i <= fields@.len(),
                    fn_wf(*func),
                    extends_frozen(base, *func),
                    same_signature(*old(func), *func),
                    module_invariants(old(ctx).module) ==> module_invariants(ctx.module),
                    module_extended(old(ctx).module, ctx.module),
                    f < fuel,
                decreases fields@.len() - i,
            {
                match &fields[i].1 {
                    Some(pat) => {
                        let field_dest = func.new_temp();
                        let iu = i as u64;
                        let idx: i64 = if iu <= 0x7fff_ffff_ffff_ffffu64 {
                            iu as i64
                        } else {
                            0
                        };
                        func.emit(
                            Instruction::GetElement {
                                dest: field_dest,
                                ptr: scrutinee.clone(),
                                index: Value::ConstInt(idx),
                            },
                        );

                        let ghost pre = *func;
                        let field_check = lower_pattern_check(
                            ctx,
                            func,
                            vars,
                            pat,
                            &Value::Temp(field_dest),
                            f,
                        );
                        proof {
                            crate::ir::module::lemma_extends_frozen_trans(base, pre, *func);
                        }
                        let dest = func.new_temp();
                        func.emit(
                            Instruction::Binary {
                                dest,
                                op: BinaryOp::And,
                                left: result,
                                right: field_check,
                            },
                        );
                        result = Value::Temp(dest);
                    },
                    None => {},
                }
                i = i + 1;
            }
            result
        },
        Pattern::Range { start, end, inclusive, span: _ } => {
            let mut result = Value::ConstBool(true);

            match start {
                Some(sexpr) => {
                    let ghost p1 = *func;
                    let start_val = lower_expr(ctx, func, vars, sexpr, f);
                    proof {
                        crate::ir::module::lemma_extends_frozen_trans(base, p1, *func);
                    }
                    let dest = func.new_temp();
                    func.emit(
                        Instruction::Compare {
                            dest,
                            op: CompareOp::Ge,
                            left: scrutinee.clone(),
                            right: start_val,
                        },
                    );
                    let and_dest = func.new_temp();
                    func.emit(
                        Instruction::Binary {
                            dest: and_dest,
                            op: BinaryOp::And,
                            left: result,
                            right: Value::Temp(dest),
                        },
                    );
                    result = Value::Temp(and_dest);
                },
                None => {},
            }

            match end {
                Some(eexpr) => {
                    let ghost p2 = *func;
                    let end_val = lower_expr(ctx, func, vars, eexpr, f);
                    proof {
                        crate::ir::module::lemma_extends_frozen_trans(base, p2, *func);
                    }
                    let dest = func.new_temp();
                    func.emit(
                        Instruction::Compare {
                            dest,
                            op: if *inclusive {
                                CompareOp::Le
                            } else {
                                CompareOp::Lt
                            },
                            left: scrutinee.clone(),
                            right: end_val,
                        },
                    );
                    let and_dest = func.new_temp();
                    func.emit(
                        Instruction::Binary {
                            dest: and_dest,
                            op: BinaryOp::And,
                            left: result,
                            right: Value::Temp(dest),
                        },
                    );
                    result = Value::Temp(and_dest);
                },
                None => {},
            }

            result
        },
    }
}

/// Binds the variables of a pattern: extracted values are stored into
/// fresh locals.
fn bind_pattern_vars(
    ctx: &mut LoweringContext,
    func: &mut Function,
    vars: &mut Vec<(String, Value)>,
    pattern: &Pattern,
    scrutinee: &Value,
    fuel: u64,
)
    requires
        fn_wf(*old(func)),
    ensures
        fn_wf(*final(func)),
        extends_frozen(*old(func), *final(func)),
        same_signature(*old(func), *final(func)),
        module_invariants(old(ctx).module) ==> module_invariants(final(ctx).module),
        module_extended(old(ctx).module, final(ctx).module),
        pattern matches Pattern::Ident { name, .. } ==> (fuel > 0
            ==> crate::assoc::assoc_find(final(vars)@, name@) == Some(*scrutinee)),
    decreases fuel,
{
    if fuel == 0 {
        return;
    }
    let f = fuel - 1;
    let ghost base = *old(func);

    match pattern {
        Pattern::Ident { name, mutable: _, span: _ } => {
            func.add_local(name.clone(), IrType::I64);
            func.emit(Instruction::Alloca { dest: name.clone(), ty: IrType::I64 });
            func.emit(
                Instruction::Store { value: scrutinee.clone(), ptr: Value::Local(name.clone()) },
            );
            assoc_set(vars, name.clone(), scrutinee.clone());
        },
        Pattern::Variant { data, .. } => {
            match data {
                VariantPatternData::Tuple(patterns) => {
                    let mut i: usize = 0;
                    while i < patterns.len()
                        invariant
                            i <= patterns@.len(),
                            fn_wf(*func),
                            extends_frozen(base, *func),
                            same_signature(*old(func), *func),
                            module_invariants(old(ctx).module) ==> module_invariants(ctx.module),
                            module_extended(old(ctx).module, ctx.module),
                            f < fuel,
                        decreases patterns@.len() - i,
                    {
                        let inner_dest = func.new_temp();
                        let iu = i as u64;
                        let idx: i64 = if iu <= 0x7fff_ffff_ffff_ffffu64 {
                            iu as i64
                        } else {
                            0
                        };
                        let mut args: Vec<Value> = Vec::new();
                        args.push(scrutinee.clone());
                        args.push(Value::ConstInt(idx));
                        func.emit(
                            Instruction::Call {
                                dest: Some(inner_dest),
                                func: "__extract_variant_field".to_owned(),
                                args,
                            },
                        );
                        let ghost pre = *func;
                        bind_pattern_vars(
                            ctx,
                            func,
                            vars,
                            &patterns[i],
                            &Value::Temp(inner_dest),
                            f,
                        );
                        proof {
                            crate::ir::module::lemma_extends_frozen_trans(base, pre, *func);
                        }
                        i = i + 1;
                    }
                },
                VariantPatternData::Struct(fields) => {
                    let mut i: usize = 0;
                    while i < fields.len()
                        invariant
                            i <= fields@.len(),
                            fn_wf(*func),
                            extends_frozen(base, *func),
                            same_signature(*old(func), *func),
                            module_invariants(old(ctx).module) ==> module_invariants(ctx.module),
                            module_extended(old(ctx).module, ctx.module),
                            f < fuel,
                        decreases fields@.len() - i,
                    {
                        let inner_dest = func.new_temp();
                        let iu = i as u64;
                        let idx: i64 = if iu <= 0x7fff_ffff_ffff_ffffu64 {
                            iu as i64
                        } else {
                            0
                        };
                        let mut args: Vec<Value> = Vec::new();
                        args.push(scrutinee.clone());
                        args.push(Value::ConstInt(idx));
                        func.emit(
                            Instruction::Call {
                                dest: Some(inner_dest),
                                func: "__extract_variant_field".to_owned(),
                                args,
                            },
                        );
                        match &fields[i].1 {
                            Some(p) => {
                                let ghost pre = *func;
                                bind_pattern_vars(
                                    ctx,
                                    func,
                                    vars,
                                    p,
                                    &Value::Temp(inner_dest),
                                    f,
                                );
                                proof {
                                    crate::ir::module::lemma_extends_frozen_trans(
                                        base,
                                        pre,
                                        *func,
                                    );
                                }
                            },
                            None => {
                                // Shorthand: bind the field name directly.
                                let fname = fields[i].0.clone();
                                func.add_local(fname.clone(), IrType::I64);
                                func.emit(
                                    Instruction::Alloca { dest: fname.clone(), ty: IrType::I64 },
                                );
                                func.emit(
                                    Instruction::Store {
                                        value: Value::Temp(inner_dest),
                                        ptr: Value::Local(fname.clone()),
                                    },
                                );
                                assoc_set(vars, fname, Value::Temp(inner_dest));
                            },
                        }
                        i = i + 1;
                    }
                },
                VariantPatternData::Unit => {},
            }
        },
        Pattern::Tuple(patterns, _) => {
            let mut i: usize = 0;
            while i < patterns.len()
                invariant
                    i <= patterns@.len(),
                    fn_wf(*func),
                    extends_frozen(base, *func),
                    same_signature(*old(func), *func),
                    module_invariants(old(ctx).module) ==> module_invariants(ctx.module),
                    module_extended(old(ctx).module, ctx.module),
                    f < fuel,
                decreases patterns@.len() - i,
            {
                let elem_dest = func.new_temp();
                let iu = i as u64;
                let idx: i64 = if iu <= 0x7fff_ffff_ffff_ffffu64 {
                    iu as i64
                } else {
                    0
                };
                func.emit(
                    Instruction::GetElement {
                        dest: elem_dest,
                        ptr: scrutinee.clone(),
                        index: Value::ConstInt(idx),
                    },
                );
                let ghost pre = *func;
                bind_pattern_vars(ctx, func, vars, &patterns[i], &Value::Temp(elem_dest), f);
                proof {
                    crate::ir::module::lemma_extends_frozen_trans(base, pre, *func);
                }
                i = i + 1;
            }
        },
        Pattern::Struct { fields, .. } => {
            let mut i: usize = 0;
            while i < fields.len()
                invariant
                    i <= fields@.len(),
                    fn_wf(*func),
                    extends_frozen(base, *func),
                    same_signature(*old(func), *func),
                    module_invariants(old(ctx).module) ==> module_invariants(ctx.module),
                    module_extended(old(ctx).module, ctx.module),
                    f < fuel,
                decreases fields@.len() - i,
            {
                let field_dest = func.new_temp();
                let iu = i as u64;
                let idx: i64 = if iu <= 0x7fff_ffff_ffff_ffffu64 {
                    iu as i64
                } else {
                    0
                };
                func.emit(
                    Instruction::GetElement {
                        dest: field_dest,
                        ptr: scrutinee.clone(),
                        index: Value::ConstInt(idx),
                    },
                );
                match &fields[i].1 {
                    Some(p) => {
                        let ghost pre = *func;
                        bind_pattern_vars(ctx, func, vars, p, &Value::Temp(field_dest), f);
                        proof {
                            crate::ir::module::lemma_extends_frozen_trans(base, pre, *func);
                        }
                    },
                    None => {
                        let fname = fields[i].0.clone();
                        func.add_local(fname.clone(), IrType::I64);
                        func.emit(Instruction::Alloca { dest: fname.clone(), ty: IrType::I64 });
                        func.emit(
                            Instruction::Store {
                                value: Value::Temp(field_dest),
                                ptr: Value::Local(fname.clone()),
                            },
                        );
                        assoc_set(vars, fname, Value::Temp(field_dest));
                    },
                }
                i = i + 1;
            }
        },
        Pattern::Or(patterns, _) => {
            // Every alternative binds the same names; binding follows the
            // first.
            if patterns.len() > 0 {
                let ghost p1 = *func;
                bind_pattern_vars(ctx, func, vars, &patterns[0], scrutinee, f);
                proof {
                    crate::ir::module::lemma_extends_frozen_trans(base, p1, *func);
                }
            }
        },
        Pattern::Wildcard(_) | Pattern::Literal(_) | Pattern::Range { .. } => {},
    }
}

} // verus!
