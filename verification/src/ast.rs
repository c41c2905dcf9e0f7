//! The abstract syntax tree of the Mendes language: statements,
//! declarations, expressions, patterns and syntactic types, each carrying a
//! source span.

use vstd::prelude::*;

use crate::span::Span;
use crate::text::{push_char, push_str, repeat_char, u64_to_dec};

verus! {

broadcast use
    vstd::seq::axiom_seq_index_decreases,
    vstd::std_specs::vec::axiom_vec_index_decreases,
    vstd::std_specs::vec::axiom_vec_decreases_to_view;


/// A complete program (one source file).
#[derive(Debug)]
pub struct Program {
    pub statements: Vec<Stmt>,
}

/// Statements and declarations.
#[derive(Debug)]
pub enum Stmt {
    /// `import "path"` or `import module_name`.
    Import { path: String, alias: Option<String>, span: Span },
    /// `from module import item1, item2` or `from module import *`.
    FromImport { module: String, items: ImportItems, span: Span },
    /// `let x: int = 10` or `let mut x = 10`.
    Let { name: String, ty: Option<Type>, value: Expr, mutable: bool, span: Span },
    /// Function declaration.
    Fn(FnDecl),
    /// Struct declaration.
    Struct(StructDecl),
    /// Enum declaration.
    Enum(EnumDecl),
    /// Trait declaration.
    Trait(TraitDecl),
    /// Trait implementation.
    ImplTrait(ImplTraitDecl),
    /// Type alias.
    TypeAlias { name: String, ty: Type, span: Span },
    /// HTTP API declaration.
    Api(ApiDecl),
    /// WebSocket endpoint declaration.
    WebSocket(WsDecl),
    /// Server declaration.
    Server(ServerDecl),
    /// Middleware declaration.
    Middleware(MiddlewareDecl),
    /// Database connection declaration.
    Db(DbDecl),
    /// Conditional statement.
    If { condition: Expr, then_block: Vec<Stmt>, else_block: Option<Vec<Stmt>>, span: Span },
    /// `for x in items:` loop.
    For { var: String, iter: Expr, body: Vec<Stmt>, span: Span },
    /// `while cond:` loop.
    While { condition: Expr, body: Vec<Stmt>, span: Span },
    /// `return expr`.
    Return { value: Option<Expr>, span: Span },
    /// `break`.
    Break { span: Span },
    /// `continue`.
    Continue { span: Span },
    /// Expression used as a statement.
    Expr(Expr),
}

/// Function declaration.
#[derive(Debug)]
pub struct FnDecl {
    pub name: String,
    pub generic_params: Vec<GenericParam>,
    pub params: Vec<Param>,
    pub return_type: Option<Type>,
    pub is_async: bool,
    pub is_pub: bool,
    pub body: Vec<Stmt>,
    pub span: Span,
}

/// Generic type parameter: `T` or `T: Trait`.
#[derive(Debug, Clone)]
pub struct GenericParam {
    pub name: String,
    pub bounds: Vec<String>,
    pub span: Span,
}

/// Function parameter.
#[derive(Debug)]
pub struct Param {
    pub name: String,
    pub ty: Type,
    pub span: Span,
}

/// Struct declaration.
#[derive(Debug)]
pub struct StructDecl {
    pub name: String,
    pub generic_params: Vec<GenericParam>,
    pub fields: Vec<Field>,
    pub methods: Vec<MethodDecl>,
    pub is_copy: bool,
    pub span: Span,
}

/// Method declaration inside a struct or impl.
#[derive(Debug)]
pub struct MethodDecl {
    pub name: String,
    pub params: Vec<Param>,
    pub return_type: Option<Type>,
    pub is_async: bool,
    pub is_pub: bool,
    /// Whether this method takes `&self`, `&mut self`, or `self`.
    pub receiver: MethodReceiver,
    pub body: Vec<Stmt>,
    pub span: Span,
}

/// Method receiver kind.
#[derive(Debug, Clone, Copy, PartialEq, Eq, Structural)]
pub enum MethodReceiver {
    /// `&self`: immutable borrow.
    Ref,
    /// `&mut self`: mutable borrow.
    MutRef,
    /// `self`: takes ownership.
    Value,
}

/// Struct field.
#[derive(Debug)]
pub struct Field {
    pub name: String,
    pub ty: Type,
    pub span: Span,
}

/// Enum declaration.
#[derive(Debug)]
pub struct EnumDecl {
    pub name: String,
    pub variants: Vec<EnumVariant>,
    pub span: Span,
}

/// Enum variant.
#[derive(Debug)]
pub struct EnumVariant {
    pub name: String,
    /// Associated data: unit, tuple-style, or struct-style.
    pub data: EnumVariantData,
    pub span: Span,
}

/// Enum variant associated data.
#[derive(Debug)]
pub enum EnumVariantData {
    /// No data.
    Unit,
    /// Tuple-style data.
    Tuple(Vec<Type>),
    /// Struct-style data.
    Struct(Vec<Field>),
}

/// Trait declaration.
#[derive(Debug)]
pub struct TraitDecl {
    pub name: String,
    pub generic_params: Vec<GenericParam>,
    pub methods: Vec<TraitMethod>,
    pub span: Span,
}

/// Trait method signature (no body).
#[derive(Debug)]
pub struct TraitMethod {
    pub name: String,
    pub params: Vec<Param>,
    pub return_type: Option<Type>,
    pub is_async: bool,
    pub receiver: MethodReceiver,
    pub span: Span,
}

/// Trait implementation: `impl TraitName for TypeName:`.
#[derive(Debug)]
pub struct ImplTraitDecl {
    pub trait_name: String,
    pub target_type: String,
    pub generic_params: Vec<GenericParam>,
    pub methods: Vec<MethodDecl>,
    pub span: Span,
}

/// HTTP API declaration.
#[derive(Debug)]
pub struct ApiDecl {
    pub method: HttpMethod,
    pub path: String,
    pub is_async: bool,
    pub middlewares: Vec<String>,
    pub body_type: Option<Type>,
    pub return_type: Option<Type>,
    pub handler: Vec<Stmt>,
    pub span: Span,
}

/// HTTP methods.
#[derive(Debug, Clone, Copy, PartialEq, Eq, Structural)]
pub enum HttpMethod {
    Get,
    Post,
    Put,
    Delete,
    Patch,
}

/// WebSocket endpoint declaration.
#[derive(Debug)]
pub struct WsDecl {
    pub path: String,
    pub middlewares: Vec<String>,
    pub on_connect: Option<Vec<Stmt>>,
    pub on_message: Option<Vec<Stmt>>,
    pub on_disconnect: Option<Vec<Stmt>>,
    pub span: Span,
}

/// WebSocket event kinds.
#[derive(Debug, Clone, Copy, PartialEq, Eq, Structural)]
pub enum WsEvent {
    Connect,
    Message,
    Disconnect,
}

/// Server declaration.
#[derive(Debug)]
pub struct ServerDecl {
    pub host: String,
    pub port: u16,
    pub span: Span,
}

/// Middleware declaration.
#[derive(Debug)]
pub struct MiddlewareDecl {
    pub name: String,
    pub body: Vec<Stmt>,
    pub span: Span,
}

/// Database connection declaration.
#[derive(Debug)]
pub struct DbDecl {
    pub db_type: DbType,
    pub name: String,
    pub url: String,
    pub pool_size: u32,
    pub span: Span,
}

/// Database kinds.
#[derive(Debug, Clone, Copy, PartialEq, Eq, Structural)]
pub enum DbType {
    Postgres,
    Mysql,
    Sqlite,
}

/// Syntactic types.
#[derive(Debug)]
pub enum Type {
    /// `int`.
    Int,
    /// `float`.
    Float,
    /// `bool`.
    Bool,
    /// `string`.
    String,
    /// User-defined type.
    Named(std::string::String),
    /// Generic type instantiation.
    Generic { name: std::string::String, args: Vec<Type> },
    /// Reference: `&T`.
    Ref(Box<Type>),
    /// Mutable reference: `&mut T`.
    MutRef(Box<Type>),
    /// Array: `[T]`.
    Array(Box<Type>),
    /// Tuple: `(int, string, bool)`.
    Tuple(Vec<Type>),
    /// Function type: `fn(int, int) -> int`.
    Function { params: Vec<Type>, return_type: Box<Type> },
}

/// Expressions.
#[derive(Debug)]
pub enum Expr {
    /// Integer literal.
    IntLit(i64, Span),
    /// Float literal, kept as its source text.
    FloatLit(String, Span),
    /// String literal.
    StringLit(String, Span),
    /// Boolean literal.
    BoolLit(bool, Span),
    /// `None`.
    OptionNone(Span),
    /// Identifier.
    Ident(String, Span),
    /// Binary operation.
    Binary { left: Box<Expr>, op: BinOp, right: Box<Expr>, span: Span },
    /// Unary operation.
    Unary { op: UnaryOp, expr: Box<Expr>, span: Span },
    /// Function call.
    Call { func: Box<Expr>, args: Vec<Expr>, span: Span },
    /// Method call: `obj.method(args)`.
    MethodCall { object: Box<Expr>, method: String, args: Vec<Expr>, span: Span },
    /// Field access.
    FieldAccess { object: Box<Expr>, field: String, span: Span },
    /// Index access.
    Index { object: Box<Expr>, index: Box<Expr>, span: Span },
    /// Await.
    Await { expr: Box<Expr>, span: Span },
    /// Borrow: `&expr` or `&mut expr`.
    Borrow { expr: Box<Expr>, mutable: bool, span: Span },
    /// `Ok(expr)`.
    ResultOk(Box<Expr>, Span),
    /// `Err(expr)`.
    ResultErr(Box<Expr>, Span),
    /// `Some(expr)`.
    OptionSome(Box<Expr>, Span),
    /// Struct literal.
    StructLit { name: String, fields: Vec<(String, Expr)>, span: Span },
    /// Array literal.
    ArrayLit(Vec<Expr>, Span),
    /// Match expression.
    Match { expr: Box<Expr>, arms: Vec<MatchArm>, span: Span },
    /// Try expression: `expr?`.
    Try { expr: Box<Expr>, span: Span },
    /// Closure expression.
    Closure { params: Vec<ClosureParam>, return_type: Option<Type>, body: ClosureBody, span: Span },
    /// String interpolation.
    StringInterpolation { parts: Vec<StringPart>, span: Span },
    /// Tuple expression.
    Tuple { elements: Vec<Expr>, span: Span },
    /// Range expression: `0..10` or `0..=10`.
    Range { start: Option<Box<Expr>>, end: Option<Box<Expr>>, inclusive: bool, span: Span },
}

/// Closure parameter, with an optional type annotation.
#[derive(Debug)]
pub struct ClosureParam {
    pub name: String,
    pub ty: Option<Type>,
    pub span: Span,
}

/// Closure body: a single expression or a block.
#[derive(Debug)]
pub enum ClosureBody {
    /// A single expression.
    Expr(Box<Expr>),
    /// An indented block.
    Block(Vec<Stmt>),
}

/// Part of an interpolated string.
#[derive(Debug)]
pub enum StringPart {
    /// Literal text.
    Literal(String),
    /// An expression to be formatted.
    Expr(Expr),
}

/// Binary operators.
#[derive(Debug, Clone, Copy, PartialEq, Eq, Structural)]
pub enum BinOp {
    Add,
    Sub,
    Mul,
    Div,
    Mod,
    Eq,
    Ne,
    Lt,
    Le,
    Gt,
    Ge,
    And,
    Or,
    Assign,
    AddAssign,
    SubAssign,
    MulAssign,
    DivAssign,
}

/// Unary operators.
#[derive(Debug, Clone, Copy, PartialEq, Eq, Structural)]
pub enum UnaryOp {
    Neg,
    Not,
}

/// One arm of a match expression.
#[derive(Debug)]
pub struct MatchArm {
    pub pattern: Pattern,
    pub guard: Option<Expr>,
    pub body: Vec<Stmt>,
    pub span: Span,
}

/// Patterns.
#[derive(Debug)]
pub enum Pattern {
    /// Wildcard: `_`.
    Wildcard(Span),
    /// Literal pattern.
    Literal(Expr),
    /// Identifier pattern, binding the value.
    Ident { name: String, mutable: bool, span: Span },
    /// Tuple pattern.
    Tuple(Vec<Pattern>, Span),
    /// Struct pattern.
    Struct { name: String, fields: Vec<(String, Option<Pattern>)>, span: Span },
    /// Enum variant pattern.
    Variant { enum_name: Option<String>, variant: String, data: VariantPatternData, span: Span },
    /// Or pattern: `A | B | C`.
    Or(Vec<Pattern>, Span),
    /// Range pattern.
    Range { start: Option<Box<Expr>>, end: Option<Box<Expr>>, inclusive: bool, span: Span },
}

/// Data in a variant pattern.
#[derive(Debug)]
pub enum VariantPatternData {
    /// No data.
    Unit,
    /// Tuple data.
    Tuple(Vec<Pattern>),
    /// Struct data.
    Struct(Vec<(String, Option<Pattern>)>),
}

/// Items being imported from a module.
#[derive(Debug)]
pub enum ImportItems {
    /// Import every public item.
    All,
    /// Import specific items.
    Names(Vec<ImportItem>),
}

/// A single imported item, with an optional alias.
#[derive(Debug)]
pub struct ImportItem {
    pub name: String,
    pub alias: Option<String>,
    pub span: Span,
}

/// Structural depth of a syntactic type; the measure for recursion.
pub open spec fn ast_type_depth(t: Type) -> nat
    decreases t,
{
    match t {
        Type::Generic { name: _, args } => 1 + ast_types_depth(args@),
        Type::Ref(inner) => 1 + ast_type_depth(*inner),
        Type::MutRef(inner) => 1 + ast_type_depth(*inner),
        Type::Array(inner) => 1 + ast_type_depth(*inner),
        Type::Tuple(types) => 1 + ast_types_depth(types@),
        Type::Function { params, return_type } => {
            let d = ast_types_depth(params@);
            let r = ast_type_depth(*return_type);
            1 + if d > r { d } else { r }
        },
        _ => 1,
    }
}

/// The largest depth among a sequence of syntactic types.
pub open spec fn ast_types_depth(s: Seq<Type>) -> nat
    decreases s,
{
    if s.len() == 0 {
        0
    } else {
        let d0 = ast_type_depth(s[0]);
        let dr = ast_types_depth(s.drop_first());
        if d0 > dr {
            d0
        } else {
            dr
        }
    }
}

/// Every element of a sequence is at most as deep as the sequence.
pub proof fn lemma_ast_types_depth(s: Seq<Type>, i: int)
    requires
        0 <= i < s.len(),
    ensures
        ast_type_depth(s[i]) <= ast_types_depth(s),
    decreases s.len(),
{
    if i > 0 {
        lemma_ast_types_depth(s.drop_first(), i - 1);
        assert(s.drop_first()[i - 1] == s[i]);
    }
}

/// The element sequences directly held by a syntactic type.
pub open spec fn ast_type_has_elems(t: Type, s: Seq<Type>) -> bool {
    match t {
        Type::Generic { name: _, args } => s == args@,
        Type::Tuple(types) => s == types@,
        Type::Function { params, return_type: _ } => s == params@,
        _ => false,
    }
}

/// The single children directly held by a syntactic type.
pub open spec fn ast_type_has_child(t: Type, u: Type) -> bool {
    match t {
        Type::Ref(inner) => u == *inner,
        Type::MutRef(inner) => u == *inner,
        Type::Array(inner) => u == *inner,
        Type::Function { params: _, return_type } => u == *return_type,
        _ => false,
    }
}

/// Every immediate child of a syntactic type is strictly shallower.
pub proof fn lemma_ast_children_shallower(t: Type)
    ensures
        forall|s: Seq<Type>, i: int|
            ast_type_has_elems(t, s) && 0 <= i < s.len() ==> ast_type_depth(#[trigger] s[i])
                < ast_type_depth(t),
        forall|u: Type| ast_type_has_child(t, u) ==> ast_type_depth(u) < ast_type_depth(t),
{
    assert forall|s: Seq<Type>, i: int|
        ast_type_has_elems(t, s) && 0 <= i < s.len() implies ast_type_depth(#[trigger] s[i])
        < ast_type_depth(t) by {
        lemma_ast_types_depth(s, i);
    }
}

impl Expr {
    /// The source span of the expression.
    pub fn span(&self) -> (r: Span) {
        match self {
            Expr::IntLit(_, span) => *span,
            Expr::FloatLit(_, span) => *span,
            Expr::StringLit(_, span) => *span,
            Expr::BoolLit(_, span) => *span,
            Expr::OptionNone(span) => *span,
            Expr::Ident(_, span) => *span,
            Expr::Binary { span, .. } => *span,
            Expr::Unary { span, .. } => *span,
            Expr::Call { span, .. } => *span,
            Expr::MethodCall { span, .. } => *span,
            Expr::FieldAccess { span, .. } => *span,
            Expr::Index { span, .. } => *span,
            Expr::Await { span, .. } => *span,
            Expr::Borrow { span, .. } => *span,
            Expr::ResultOk(_, span) => *span,
            Expr::ResultErr(_, span) => *span,
            Expr::OptionSome(_, span) => *span,
            Expr::StructLit { span, .. } => *span,
            Expr::ArrayLit(_, span) => *span,
            Expr::Match { span, .. } => *span,
            Expr::Try { span, .. } => *span,
            Expr::Closure { span, .. } => *span,
            Expr::StringInterpolation { span, .. } => *span,
            Expr::Tuple { span, .. } => *span,
            Expr::Range { span, .. } => *span,
        }
    }
}

impl Pattern {
    /// The source span of the pattern.
    pub fn span(&self) -> (r: Span) {
        match self {
            Pattern::Wildcard(span) => *span,
            Pattern::Literal(expr) => expr.span(),
            Pattern::Ident { span, .. } => *span,
            Pattern::Tuple(_, span) => *span,
            Pattern::Struct { span, .. } => *span,
            Pattern::Variant { span, .. } => *span,
            Pattern::Or(_, span) => *span,
            Pattern::Range { span, .. } => *span,
        }
    }
}


/// Formats a statement for display, one summary line per construct.
pub fn format_stmt(stmt: &Stmt, indent: usize) -> (r: String) {
    let pad = repeat_char(' ', if indent < 0x7fff { 2 * indent } else { 0xfffe });
    let mut out = pad.clone();
    match stmt {
        Stmt::Import { path, alias, .. } => {
            push_str(&mut out, "Import \"");
            push_str(&mut out, path.as_str());
            push_char(&mut out, '"');
            match alias {
                Some(a) => {
                    push_str(&mut out, " as ");
                    push_str(&mut out, a.as_str());
                },
                None => {},
            }
        },
        Stmt::FromImport { module, items, .. } => {
            push_str(&mut out, "From ");
            push_str(&mut out, module.as_str());
            push_str(&mut out, " import ");
            match items {
                ImportItems::All => {
                    push_char(&mut out, '*');
                },
                ImportItems::Names(names) => {
                    let mut i: usize = 0;
                    while i < names.len()
                        invariant
                            i <= names@.len(),
                        decreases names@.len() - i,
                    {
                        if i > 0 {
                            push_str(&mut out, ", ");
                        }
                        push_str(&mut out, names[i].name.as_str());
                        match &names[i].alias {
                            Some(a) => {
                                push_str(&mut out, " as ");
                                push_str(&mut out, a.as_str());
                            },
                            None => {},
                        }
                        i = i + 1;
                    }
                },
            }
        },
        Stmt::Let { name, ty, mutable, .. } => {
            push_str(&mut out, "Let ");
            if *mutable {
                push_str(&mut out, "mut ");
            }
            push_str(&mut out, name.as_str());
            match ty {
                Some(t) => {
                    push_str(&mut out, ": ");
                    let ts = format_type(t);
                    push_str(&mut out, ts.as_str());
                },
                None => {},
            }
        },
        Stmt::Fn(f) => {
            push_str(&mut out, "Fn ");
            push_str(&mut out, f.name.as_str());
            push_char(&mut out, '(');
            let mut i: usize = 0;
            while i < f.params.len()
                invariant
                    i <= f.params@.len(),
                decreases f.params@.len() - i,
            {
                if i > 0 {
                    push_str(&mut out, ", ");
                }
                push_str(&mut out, f.params[i].name.as_str());
                push_str(&mut out, ": ");
                let ts = format_type(&f.params[i].ty);
                push_str(&mut out, ts.as_str());
                i = i + 1;
            }
            push_char(&mut out, ')');
            match &f.return_type {
                Some(t) => {
                    push_str(&mut out, " -> ");
                    let ts = format_type(t);
                    push_str(&mut out, ts.as_str());
                },
                None => {},
            }
            if f.is_async {
                push_str(&mut out, " async");
            }
            push_char(&mut out, '\n');
            push_str(&mut out, pad.as_str());
            push_str(&mut out, "  body: ");
            let n = u64_to_dec(f.body.len() as u64);
            push_str(&mut out, n.as_str());
            push_str(&mut out, " statements");
        },
        Stmt::Struct(s) => {
            push_str(&mut out, "Struct ");
            push_str(&mut out, s.name.as_str());
            if s.is_copy {
                push_str(&mut out, " copy");
            }
            push_str(&mut out, " { ");
            let mut i: usize = 0;
            while i < s.fields.len()
                invariant
                    i <= s.fields@.len(),
                decreases s.fields@.len() - i,
            {
                if i > 0 {
                    push_str(&mut out, ", ");
                }
                push_str(&mut out, s.fields[i].name.as_str());
                push_str(&mut out, ": ");
                let ts = format_type(&s.fields[i].ty);
                push_str(&mut out, ts.as_str());
                i = i + 1;
            }
            push_str(&mut out, " }");
        },
        Stmt::Enum(e) => {
            push_str(&mut out, "Enum ");
            push_str(&mut out, e.name.as_str());
            push_str(&mut out, " { ");
            let mut i: usize = 0;
            while i < e.variants.len()
                invariant
                    i <= e.variants@.len(),
                decreases e.variants@.len() - i,
            {
                if i > 0 {
                    push_str(&mut out, ", ");
                }
                push_str(&mut out, e.variants[i].name.as_str());
                i = i + 1;
            }
            push_str(&mut out, " }");
        },
        Stmt::Api(api) => {
            push_str(&mut out, "Api ");
            let method: &str = match api.method {
                HttpMethod::Get => "GET",
                HttpMethod::Post => "POST",
                HttpMethod::Put => "PUT",
                HttpMethod::Delete => "DELETE",
                HttpMethod::Patch => "PATCH",
            };
            push_str(&mut out, method);
            push_char(&mut out, ' ');
            push_str(&mut out, api.path.as_str());
            match &api.return_type {
                Some(t) => {
                    push_str(&mut out, " -> ");
                    let ts = format_type(t);
                    push_str(&mut out, ts.as_str());
                },
                None => {},
            }
            if api.is_async {
                push_str(&mut out, " async");
            }
            push_char(&mut out, '\n');
            push_str(&mut out, pad.as_str());
            push_str(&mut out, "  middlewares: ");
            let ms = format_name_list(&api.middlewares);
            push_str(&mut out, ms.as_str());
            push_char(&mut out, '\n');
            push_str(&mut out, pad.as_str());
            push_str(&mut out, "  handler: ");
            let n = u64_to_dec(api.handler.len() as u64);
            push_str(&mut out, n.as_str());
            push_str(&mut out, " statements");
        },
        Stmt::WebSocket(ws) => {
            push_str(&mut out, "WebSocket ");
            push_str(&mut out, ws.path.as_str());
            push_char(&mut out, '\n');
            push_str(&mut out, pad.as_str());
            push_str(&mut out, "  middlewares: ");
            let ms = format_name_list(&ws.middlewares);
            push_str(&mut out, ms.as_str());
            push_char(&mut out, '\n');
            push_str(&mut out, pad.as_str());
            push_str(&mut out, "  handlers: [");
            let mut first = true;
            if ws.on_connect.is_some() {
                push_str(&mut out, "on_connect");
                first = false;
            }
            if ws.on_message.is_some() {
                if !first {
                    push_str(&mut out, ", ");
                }
                push_str(&mut out, "on_message");
                first = false;
            }
            if ws.on_disconnect.is_some() {
                if !first {
                    push_str(&mut out, ", ");
                }
                push_str(&mut out, "on_disconnect");
            }
            push_char(&mut out, ']');
        },
        Stmt::Server(s) => {
            push_str(&mut out, "Server { host: \"");
            push_str(&mut out, s.host.as_str());
            push_str(&mut out, "\", port: ");
            let p = u64_to_dec(s.port as u64);
            push_str(&mut out, p.as_str());
            push_str(&mut out, " }");
        },
        Stmt::Middleware(m) => {
            push_str(&mut out, "Middleware ");
            push_str(&mut out, m.name.as_str());
            push_char(&mut out, '\n');
            push_str(&mut out, pad.as_str());
            push_str(&mut out, "  body: ");
            let n = u64_to_dec(m.body.len() as u64);
            push_str(&mut out, n.as_str());
            push_str(&mut out, " statements");
        },
        Stmt::Db(db) => {
            push_str(&mut out, "Db ");
            let db_type: &str = match db.db_type {
                DbType::Postgres => "postgres",
                DbType::Mysql => "mysql",
                DbType::Sqlite => "sqlite",
            };
            push_str(&mut out, db_type);
            push_char(&mut out, ' ');
            push_str(&mut out, db.name.as_str());
            push_str(&mut out, " { pool: ");
            let p = u64_to_dec(db.pool_size as u64);
            push_str(&mut out, p.as_str());
            push_str(&mut out, " }");
        },
        Stmt::If { then_block, else_block, .. } => {
            push_str(&mut out, "If (then: ");
            let n = u64_to_dec(then_block.len() as u64);
            push_str(&mut out, n.as_str());
            push_str(&mut out, " stmts");
            match else_block {
                Some(b) => {
                    push_str(&mut out, ", else: ");
                    let m = u64_to_dec(b.len() as u64);
                    push_str(&mut out, m.as_str());
                    push_str(&mut out, " stmts");
                },
                None => {},
            }
            push_char(&mut out, ')');
        },
        Stmt::For { var, body, .. } => {
            push_str(&mut out, "For ");
            push_str(&mut out, var.as_str());
            push_str(&mut out, " in ... (");
            let n = u64_to_dec(body.len() as u64);
            push_str(&mut out, n.as_str());
            push_str(&mut out, " stmts)");
        },
        Stmt::While { body, .. } => {
            push_str(&mut out, "While ... (");
            let n = u64_to_dec(body.len() as u64);
            push_str(&mut out, n.as_str());
            push_str(&mut out, " stmts)");
        },
        Stmt::Return { value, .. } => {
            push_str(&mut out, "Return");
            if value.is_some() {
                push_str(&mut out, " <expr>");
            }
        },
        Stmt::Expr(_) => {
            push_str(&mut out, "Expr <...>");
        },
        Stmt::Trait(t) => {
            push_str(&mut out, "Trait ");
            push_str(&mut out, t.name.as_str());
            push_str(&mut out, " { methods: ");
            let mut i: usize = 0;
            while i < t.methods.len()
                invariant
                    i <= t.methods@.len(),
                decreases t.methods@.len() - i,
            {
                if i > 0 {
                    push_str(&mut out, ", ");
                }
                push_str(&mut out, t.methods[i].name.as_str());
                i = i + 1;
            }
            push_str(&mut out, " }");
        },
        Stmt::ImplTrait(i) => {
            push_str(&mut out, "Impl ");
            push_str(&mut out, i.trait_name.as_str());
            push_str(&mut out, " for ");
            push_str(&mut out, i.target_type.as_str());
        },
        Stmt::TypeAlias { name, ty, .. } => {
            push_str(&mut out, "Type ");
            push_str(&mut out, name.as_str());
            push_str(&mut out, " = ");
            let ts = format_type(ty);
            push_str(&mut out, ts.as_str());
        },
        Stmt::Break { .. } => {
            push_str(&mut out, "Break");
        },
        Stmt::Continue { .. } => {
            push_str(&mut out, "Continue");
        },
    }
    out
}

/// Formats a list of names in bracketed, quoted form.
fn format_name_list(names: &Vec<String>) -> (r: String) {
    let mut out = "[".to_owned();
    let mut i: usize = 0;
    while i < names.len()
        invariant
            i <= names@.len(),
        decreases names@.len() - i,
    {
        if i > 0 {
            push_str(&mut out, ", ");
        }
        push_char(&mut out, '"');
        push_str(&mut out, names[i].as_str());
        push_char(&mut out, '"');
        i = i + 1;
    }
    push_char(&mut out, ']');
    out
}

/// Formats a syntactic type for display.
pub fn format_type(ty: &Type) -> (r: String)
    decreases ast_type_depth(*ty), 0int,
{
    match ty {
        Type::Int => "int".to_owned(),
        Type::Float => "float".to_owned(),
        Type::Bool => "bool".to_owned(),
        Type::String => "string".to_owned(),
        Type::Named(name) => name.clone(),
        Type::Generic { name, args } => {
            let mut s = name.clone();
            push_char(&mut s, '<');
            let inner = format_type_list(args);
            push_str(&mut s, inner.as_str());
            push_char(&mut s, '>');
            s
        },
        Type::Ref(inner) => {
            let mut s = "&".to_owned();
            let t = format_type(inner);
            push_str(&mut s, t.as_str());
            s
        },
        Type::MutRef(inner) => {
            let mut s = "&mut ".to_owned();
            let t = format_type(inner);
            push_str(&mut s, t.as_str());
            s
        },
        Type::Array(inner) => {
            let mut s = "[".to_owned();
            let t = format_type(inner);
            push_str(&mut s, t.as_str());
            push_char(&mut s, ']');
            s
        },
        Type::Tuple(types) => {
            let mut s = "(".to_owned();
            let inner = format_type_list(types);
            push_str(&mut s, inner.as_str());
            push_char(&mut s, ')');
            s
        },
        Type::Function { params, return_type } => {
            let mut s = "fn(".to_owned();
            let inner = format_type_list(params);
            push_str(&mut s, inner.as_str());
            push_str(&mut s, ") -> ");
            let t = format_type(return_type);
            push_str(&mut s, t.as_str());
            s
        },
    }
}

/// Formats a comma-separated list of syntactic types.
fn format_type_list(v: &Vec<Type>) -> (r: String)
    decreases ast_types_depth(v@), 1int,
{
    let mut s = String::new();
    let mut i: usize = 0;
    while i < v.len()
        invariant
            i <= v@.len(),
        decreases v@.len() - i,
    {
        proof {
            lemma_ast_types_depth(v@, i as int);
        }
        if i > 0 {
            push_str(&mut s, ", ");
        }
        let t = format_type(&v[i]);
        push_str(&mut s, t.as_str());
        i = i + 1;
    }
    s
}

} // verus!
