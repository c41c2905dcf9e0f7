//! Code generation: the backend trait and the Rust backend, a
//! template-driven emitter that consumes the IR module.

use vstd::prelude::*;

use crate::ir::instruction::{BinaryOp, CompareOp, Instruction, Value};
use crate::ir::module::{BasicBlock, Function, Module};
use crate::ir::types::{GenericParam, IrType};
use crate::text::{cat2, push_char, push_str, string_is, u64_to_dec};

verus! {

/// A code generation backend: it turns an IR module into target text.
pub trait CodeGen {
    /// Generates code for the module.
    fn generate(&self, module: &Module) -> String;
}

/// Compilation options.
#[derive(Debug, Clone)]
pub struct CompileOptions {
    /// Output file name.
    pub output: String,
    /// Optimization level.
    pub opt_level: u8,
    /// Whether to include debug information.
    pub debug_info: bool,
    /// Target triple, if any.
    pub target: Option<String>,
}

impl Default for CompileOptions {
    /// Unoptimized output named `output`, with debug information.
    fn default() -> (r: Self)
        ensures
            r.opt_level == 0u8,
            r.debug_info,
            r.target is None,
    {
        CompileOptions {
            output: "output".to_owned(),
            opt_level: 0,
            debug_info: true,
            target: None,
        }
    }
}

/// Information about a detected bounded-for-loop pattern.
struct ForLoopInfo {
    loop_var: String,
    end_val: Value,
    cmp_op: CompareOp,
    body_label: String,
    inc_label: String,
    end_label: String,
}

/// Information about a detected while-loop pattern.
struct WhileLoopInfo {
    body_label: String,
    end_label: String,
}

/// The Rust backend: generates Rust source that runs against the runtime
/// library.
#[derive(Debug)]
pub struct RustBackend;

impl Clone for RustBackend {
    fn clone(&self) -> (r: Self) {
        RustBackend
    }
}

impl Default for RustBackend {
    fn default() -> (r: Self) {
        RustBackend
    }
}

impl CodeGen for RustBackend {
    /// Generates Rust source for the whole module.
    fn generate(&self, module: &Module) -> (r: String) {
        let mut output = String::new();

        emit_prelude(module, &mut output);
        emit_string_table(module, &mut output);
        emit_type_aliases(module, &mut output);
        emit_structs(module, &mut output);
        emit_traits(module, &mut output);
        emit_db_context(module, &mut output);

        let mut fi: usize = 0;
        while fi < module.functions.len()
            invariant
                fi <= module.functions@.len(),
            decreases module.functions@.len() - fi,
        {
            if !is_impl_method(module, &module.functions[fi].name) {
                emit_function(&module.functions[fi], module, &mut output);
            }
            fi = fi + 1;
        }

        emit_impls(module, &mut output);
        emit_route_setup(module, &mut output);
        emit_main(module, &mut output);

        output
    }
}

impl RustBackend {
    pub fn new() -> (r: Self) {
        RustBackend
    }
}

/// Whether a function is emitted inline as a trait-impl method.
fn is_impl_method(module: &Module, name: &String) -> (r: bool) {
    let mut i: usize = 0;
    while i < module.impls.len()
        invariant
            i <= module.impls@.len(),
        decreases module.impls@.len() - i,
    {
        let mut j: usize = 0;
        while j < module.impls[i].methods.len()
            invariant
                i < module.impls@.len(),
                j <= module.impls@[i as int].methods@.len(),
            decreases module.impls@[i as int].methods@.len() - j,
        {
            if string_is(&module.impls[i].methods[j], name.as_str()) {
                return true;
            }
            j = j + 1;
        }
        i = i + 1;
    }
    false
}

/// Formats generic parameters with their bounds: `<T, U: Show + Copy>`.
fn emit_generic_params(params: &Vec<GenericParam>) -> (r: String) {
    if params.len() == 0 {
        return String::new();
    }
    let mut s = "<".to_owned();
    let mut i: usize = 0;
    while i < params.len()
        invariant
            i <= params@.len(),
        decreases params@.len() - i,
    {
        if i > 0 {
            push_str(&mut s, ", ");
        }
        push_str(&mut s, params[i].name.as_str());
        if params[i].bounds.len() > 0 {
            push_str(&mut s, ": ");
            let mut j: usize = 0;
            while j < params[i].bounds.len()
                invariant
                    i < params@.len(),
                    j <= params@[i as int].bounds@.len(),
                decreases params@[i as int].bounds@.len() - j,
            {
                if j > 0 {
                    push_str(&mut s, " + ");
                }
                push_str(&mut s, params[i].bounds[j].as_str());
                j = j + 1;
            }
        }
        i = i + 1;
    }
    push_char(&mut s, '>');
    s
}

/// Formats generic parameter names only: `<T, U>`.
fn emit_generic_args(params: &Vec<GenericParam>) -> (r: String) {
    if params.len() == 0 {
        return String::new();
    }
    let mut s = "<".to_owned();
    let mut i: usize = 0;
    while i < params.len()
        invariant
            i <= params@.len(),
        decreases params@.len() - i,
    {
        if i > 0 {
            push_str(&mut s, ", ");
        }
        push_str(&mut s, params[i].name.as_str());
        i = i + 1;
    }
    push_char(&mut s, '>');
    s
}

/// The Rust spelling of an IR type.
fn emit_type(ty: &IrType) -> (r: String)
    decreases crate::ir::types::ir_depth(*ty), 0int,
{
    match ty {
        IrType::Void => "()".to_owned(),
        IrType::I64 => "i64".to_owned(),
        IrType::F64 => "f64".to_owned(),
        IrType::Bool => "bool".to_owned(),
        IrType::String => "MendesString".to_owned(),
        IrType::Ptr(inner) => {
            let mut s = "&".to_owned();
            let t = emit_type(inner);
            push_str(&mut s, t.as_str());
            s
        },
        IrType::Array(elem, _) => {
            let mut s = "MendesArray<".to_owned();
            let t = emit_type(elem);
            push_str(&mut s, t.as_str());
            push_char(&mut s, '>');
            s
        },
        IrType::Struct(name) => emit_struct_type(name.as_str()),
        IrType::Function { params, ret } => {
            let mut s = "fn(".to_owned();
            let inner = emit_type_list(params);
            push_str(&mut s, inner.as_str());
            push_str(&mut s, ") -> ");
            let t = emit_type(ret);
            push_str(&mut s, t.as_str());
            s
        },
        IrType::Future(inner) => {
            let mut s = "impl Future<Output = ".to_owned();
            let t = emit_type(inner);
            push_str(&mut s, t.as_str());
            push_char(&mut s, '>');
            s
        },
        IrType::Tuple(elems) => {
            let mut s = "(".to_owned();
            let inner = emit_type_list(elems);
            push_str(&mut s, inner.as_str());
            push_char(&mut s, ')');
            s
        },
        IrType::Range(inner) => {
            let mut s = "std::ops::Range<".to_owned();
            let t = emit_type(inner);
            push_str(&mut s, t.as_str());
            push_char(&mut s, '>');
            s
        },
    }
}

/// Formats a comma-separated list of types.
fn emit_type_list(v: &Vec<IrType>) -> (r: String)
    decreases crate::ir::types::irs_depth(v@), 1int,
{
    let mut s = String::new();
    let mut i: usize = 0;
    while i < v.len()
        invariant
            i <= v@.len(),
        decreases v@.len() - i,
    {
        proof {
            crate::ir::types::lemma_irs_depth(v@, i as int);
        }
        if i > 0 {
            push_str(&mut s, ", ");
        }
        let t = emit_type(&v[i]);
        push_str(&mut s, t.as_str());
        i = i + 1;
    }
    s
}

/// The Rust spelling of a struct-typed name, unfolding the result and
/// option instantiations.
fn emit_struct_type(name: &str) -> (r: String) {
    let chars = crate::text::str_chars(name);
    // Result_T_E -> MendesResult<T, E>
    if starts_with_text(&chars, "Result_") {
        let parts = split_underscore(&chars, 7);
        if parts.len() >= 2 {
            let ok_type = convert_type_name(parts[0].as_str());
            let err_type = convert_type_name(parts[1].as_str());
            let mut s = "MendesResult<".to_owned();
            push_str(&mut s, ok_type.as_str());
            push_str(&mut s, ", ");
            push_str(&mut s, err_type.as_str());
            push_char(&mut s, '>');
            return s;
        }
    }
    // Option_T -> MendesOption<T>
    if starts_with_text(&chars, "Option_") {
        let rest = tail_text(&chars, 7);
        let inner = convert_type_name(rest.as_str());
        let mut s = "MendesOption<".to_owned();
        push_str(&mut s, inner.as_str());
        push_char(&mut s, '>');
        return s;
    }
    name.to_owned()
}

/// Whether a character sequence starts with the given text.
fn starts_with_text(chars: &Vec<char>, prefix: &str) -> (r: bool) {
    let p = crate::text::str_chars(prefix);
    if chars.len() < p.len() {
        return false;
    }
    let mut i: usize = 0;
    while i < p.len()
        invariant
            i <= p@.len(),
            p@.len() <= chars@.len(),
        decreases p@.len() - i,
    {
        if chars[i] != p[i] {
            return false;
        }
        i = i + 1;
    }
    true
}

/// The text after the given offset.
fn tail_text(chars: &Vec<char>, from: usize) -> (r: String) {
    let mut out: Vec<char> = Vec::new();
    let mut i: usize = from;
    while i < chars.len()
        invariant
            i <= chars@.len() || i == from,
        decreases chars@.len() - i,
    {
        out.push(chars[i]);
        i = i + 1;
    }
    crate::text::chars_to_string(&out)
}

/// Splits the text after the given offset on underscores.
fn split_underscore(chars: &Vec<char>, from: usize) -> (r: Vec<String>) {
    let mut parts: Vec<String> = Vec::new();
    let mut current: Vec<char> = Vec::new();
    let mut i: usize = from;
    while i < chars.len()
        invariant
            i <= chars@.len() || i == from,
        decreases chars@.len() - i,
    {
        let c = chars[i];
        if c == '_' {
            parts.push(crate::text::chars_to_string(&current));
            current = Vec::new();
        } else {
            current.push(c);
        }
        i = i + 1;
    }
    parts.push(crate::text::chars_to_string(&current));
    parts
}

/// The Rust spelling of a surface type tag.
fn convert_type_name(name: &str) -> (r: String) {
    if str_matches(name, "Int") || str_matches(name, "int") {
        "i64".to_owned()
    } else if str_matches(name, "Float") || str_matches(name, "float") {
        "f64".to_owned()
    } else if str_matches(name, "Bool") || str_matches(name, "bool") {
        "bool".to_owned()
    } else if str_matches(name, "String") || str_matches(name, "string") {
        "MendesString".to_owned()
    } else {
        name.to_owned()
    }
}

/// Whether two string slices hold the same text.
fn str_matches(a: &str, b: &str) -> (r: bool) {
    crate::text::str_eq(a, b)
}

/// The Rust spelling of an IR value.
fn emit_value(value: &Value) -> (r: String) {
    match value {
        Value::ConstInt(v) => crate::text::i64_to_dec(*v),
        Value::ConstFloat(t) => {
            let mut s = t.clone();
            push_str(&mut s, "_f64");
            s
        },
        Value::ConstBool(v) => if *v {
            "true".to_owned()
        } else {
            "false".to_owned()
        },
        Value::ConstString(idx) => {
            let mut s = "__str_".to_owned();
            let n = u64_to_dec(*idx as u64);
            push_str(&mut s, n.as_str());
            push_str(&mut s, "()");
            s
        },
        Value::Local(name) => name.clone(),
        Value::Param(idx) => {
            let mut s = "__arg".to_owned();
            let n = u64_to_dec(*idx as u64);
            push_str(&mut s, n.as_str());
            s
        },
        Value::Global(name) => name.clone(),
        Value::Temp(id) => {
            let mut s = "__t".to_owned();
            let n = u64_to_dec(*id as u64);
            push_str(&mut s, n.as_str());
            s
        },
        Value::Void => "()".to_owned(),
    }
}

/// The Rust spelling of a binary operator.
fn emit_binary_op(op: &BinaryOp) -> (r: &'static str) {
    match op {
        BinaryOp::Add => "+",
        BinaryOp::Sub => "-",
        BinaryOp::Mul => "*",
        BinaryOp::Div => "/",
        BinaryOp::Mod => "%",
        BinaryOp::And => "&&",
        BinaryOp::Or => "||",
        BinaryOp::Xor => "^",
        BinaryOp::Shl => "<<",
        BinaryOp::Shr => ">>",
    }
}

/// The Rust spelling of a comparison operator.
fn emit_compare_op(op: &CompareOp) -> (r: &'static str) {
    match op {
        CompareOp::Eq => "==",
        CompareOp::Ne => "!=",
        CompareOp::Lt => "<",
        CompareOp::Le => "<=",
        CompareOp::Gt => ">",
        CompareOp::Ge => ">=",
    }
}

/// Emits the file prelude: lints and runtime imports.
fn emit_prelude(module: &Module, output: &mut String) {
    push_str(output, "// Emitted Rust for a compiled module\n\n");
    push_str(
        output,
        "#![allow(unused_variables, unused_imports, dead_code, non_snake_case)]\n\n",
    );
    push_str(output, "use mendes_runtime::{\n");
    push_str(output, "    Server, Router, Request, Response,\n");
    push_str(output, "    MendesString, MendesResult, MendesOption,\n");
    push_str(output, "    tokio,\n");
    push_str(output, "};\n");

    if module.databases.len() > 0 {
        push_str(output, "use std::sync::Arc;\n");
        let mut i: usize = 0;
        while i < module.databases.len()
            invariant
                i <= module.databases@.len(),
            decreases module.databases@.len() - i,
        {
            if string_is(&module.databases[i].db_type, "postgres") {
                push_str(output, "use mendes_runtime::PostgresPool;\n");
            } else if string_is(&module.databases[i].db_type, "mysql") {
                push_str(output, "use mendes_runtime::MysqlPool;\n");
            } else if string_is(&module.databases[i].db_type, "sqlite") {
                push_str(output, "use mendes_runtime::SqlitePool;\n");
            }
            i = i + 1;
        }
    }
    push_char(output, '\n');
}

/// Emits the string-constant accessors.
fn emit_string_table(module: &Module, output: &mut String) {
    if module.string_table.len() == 0 {
        return;
    }
    push_str(output, "// String constants\n");
    let mut i: usize = 0;
    while i < module.string_table.len()
        invariant
            i <= module.string_table@.len(),
        decreases module.string_table@.len() - i,
    {
        push_str(output, "fn __str_");
        let n = u64_to_dec(i as u64);
        push_str(output, n.as_str());
        push_str(output, "() -> MendesString { MendesString::new(\"");
        let escaped = escape_rust(module.string_table[i].as_str());
        push_str(output, escaped.as_str());
        push_str(output, "\") }\n");
        i = i + 1;
    }
    push_char(output, '\n');
}

/// Escapes text for inclusion in a Rust string literal.
fn escape_rust(s: &str) -> (r: String) {
    let chars = crate::text::str_chars(s);
    let mut out: Vec<char> = Vec::new();
    let mut i: usize = 0;
    while i < chars.len()
        invariant
            i <= chars@.len(),
        decreases chars@.len() - i,
    {
        let c = chars[i];
        if c == '\\' {
            out.push('\\');
            out.push('\\');
        } else if c == '"' {
            out.push('\\');
            out.push('"');
        } else if c == '\n' {
            out.push('\\');
            out.push('n');
        } else if c == '\r' {
            out.push('\\');
            out.push('r');
        } else if c == '\t' {
            out.push('\\');
            out.push('t');
        } else {
            out.push(c);
        }
        i = i + 1;
    }
    crate::text::chars_to_string(&out)
}

/// Emits the type aliases.
fn emit_type_aliases(module: &Module, output: &mut String) {
    if module.type_aliases.len() == 0 {
        return;
    }
    push_str(output, "// Type aliases\n");
    let mut i: usize = 0;
    while i < module.type_aliases.len()
        invariant
            i <= module.type_aliases@.len(),
        decreases module.type_aliases@.len() - i,
    {
        push_str(output, "pub type ");
        push_str(output, module.type_aliases[i].0.as_str());
        push_str(output, " = ");
        let t = emit_type(&module.type_aliases[i].1.target);
        push_str(output, t.as_str());
        push_str(output, ";\n");
        i = i + 1;
    }
    push_char(output, '\n');
}

/// Emits the struct definitions.
fn emit_structs(module: &Module, output: &mut String) {
    if module.structs.len() == 0 {
        return;
    }
    push_str(output, "// Struct definitions\n");
    let mut i: usize = 0;
    while i < module.structs.len()
        invariant
            i <= module.structs@.len(),
        decreases module.structs@.len() - i,
    {
        let generics = emit_generic_params(&module.structs[i].1.generic_params);
        push_str(output, "#[derive(Debug, Clone, serde::Serialize, serde::Deserialize)]\n");
        push_str(output, "pub struct ");
        push_str(output, module.structs[i].0.as_str());
        push_str(output, generics.as_str());
        push_str(output, " {\n");
        let mut j: usize = 0;
        while j < module.structs[i].1.fields.len()
            invariant
                i < module.structs@.len(),
                j <= module.structs@[i as int].1.fields@.len(),
            decreases module.structs@[i as int].1.fields@.len() - j,
        {
            push_str(output, "    pub ");
            push_str(output, module.structs[i].1.fields[j].0.as_str());
            push_str(output, ": ");
            let t = emit_type(&module.structs[i].1.fields[j].1);
            push_str(output, t.as_str());
            push_str(output, ",\n");
            j = j + 1;
        }
        push_str(output, "}\n\n");
        i = i + 1;
    }
}

/// Emits the trait definitions.
fn emit_traits(module: &Module, output: &mut String) {
    if module.traits.len() == 0 {
        return;
    }
    push_str(output, "// Trait definitions\n");
    let mut i: usize = 0;
    while i < module.traits.len()
        invariant
            i <= module.traits@.len(),
        decreases module.traits@.len() - i,
    {
        let generics = emit_generic_params(&module.traits[i].1.generic_params);
        push_str(output, "pub trait ");
        push_str(output, module.traits[i].0.as_str());
        push_str(output, generics.as_str());
        push_str(output, " {\n");
        let mut j: usize = 0;
        while j < module.traits[i].1.methods.len()
            invariant
                i < module.traits@.len(),
                j <= module.traits@[i as int].1.methods@.len(),
            decreases module.traits@[i as int].1.methods@.len() - j,
        {
            let receiver: &str = if module.traits[i].1.methods[j].receiver == 1 {
                "&mut self"
            } else if module.traits[i].1.methods[j].receiver == 2 {
                "self"
            } else {
                "&self"
            };
            push_str(output, "    ");
            if module.traits[i].1.methods[j].is_async {
                push_str(output, "async ");
            }
            push_str(output, "fn ");
            push_str(output, module.traits[i].1.methods[j].name.as_str());
            push_char(output, '(');
            push_str(output, receiver);
            let mut k: usize = 0;
            while k < module.traits[i].1.methods[j].params.len()
                invariant
                    i < module.traits@.len(),
                    j < module.traits@[i as int].1.methods@.len(),
                    k <= module.traits@[i as int].1.methods@[j as int].params@.len(),
                decreases module.traits@[i as int].1.methods@[j as int].params@.len() - k,
            {
                push_str(output, ", ");
                push_str(output, module.traits[i].1.methods[j].params[k].0.as_str());
                push_str(output, ": ");
                let t = emit_type(&module.traits[i].1.methods[j].params[k].1);
                push_str(output, t.as_str());
                k = k + 1;
            }
            push_str(output, ") -> ");
            let rt = emit_type(&module.traits[i].1.methods[j].return_type);
            push_str(output, rt.as_str());
            push_str(output, ";\n");
            j = j + 1;
        }
        push_str(output, "}\n\n");
        i = i + 1;
    }
}

/// Emits the database context, when databases are declared.
fn emit_db_context(module: &Module, output: &mut String) {
    if module.databases.len() == 0 {
        return;
    }
    push_str(output, "/// Database context holding all connection pools\n");
    push_str(output, "#[derive(Clone)]\n");
    push_str(output, "pub struct DbContext {\n");
    let mut i: usize = 0;
    while i < module.databases.len()
        invariant
            i <= module.databases@.len(),
        decreases module.databases@.len() - i,
    {
        let pool_type: &str = if string_is(&module.databases[i].db_type, "mysql") {
            "MysqlPool"
        } else if string_is(&module.databases[i].db_type, "sqlite") {
            "SqlitePool"
        } else {
            "PostgresPool"
        };
        push_str(output, "    pub ");
        push_str(output, module.databases[i].name.as_str());
        push_str(output, ": Option<");
        push_str(output, pool_type);
        push_str(output, ">,\n");
        i = i + 1;
    }
    push_str(output, "}\n\n");

    push_str(output, "impl DbContext {\n");
    push_str(output, "    pub async fn new() -> Self {\n");
    push_str(output, "        Self {\n");
    let mut j: usize = 0;
    while j < module.databases.len()
        invariant
            j <= module.databases@.len(),
        decreases module.databases@.len() - j,
    {
        push_str(output, "            ");
        push_str(output, module.databases[j].name.as_str());
        push_str(output, ": None,\n");
        j = j + 1;
    }
    push_str(output, "        }\n    }\n}\n\n");
}


/// Emits one function with structured control flow.
fn emit_function(func: &Function, module: &Module, output: &mut String) {
    let return_type = emit_type(&func.return_type);
    let generics = emit_generic_params(&func.generic_params);

    if func.is_async {
        push_str(output, "async fn ");
    } else {
        push_str(output, "fn ");
    }
    push_str(output, func.name.as_str());
    push_str(output, generics.as_str());
    push_char(output, '(');

    let mut i: usize = 0;
    while i < func.params.len()
        invariant
            i <= func.params@.len(),
        decreases func.params@.len() - i,
    {
        if i > 0 {
            push_str(output, ", ");
        }
        let dunder = starts_with_text(&crate::text::str_chars(func.params[i].0.as_str()), "__");
        if dunder || func.params[i].0.as_str().is_empty() {
            push_str(output, "__arg");
            let n = u64_to_dec(i as u64);
            push_str(output, n.as_str());
        } else {
            push_str(output, func.params[i].0.as_str());
        }
        push_str(output, ": ");
        let t = emit_type(&func.params[i].1);
        push_str(output, t.as_str());
        i = i + 1;
    }

    push_str(output, ") -> ");
    push_str(output, return_type.as_str());
    push_str(output, " {\n");

    let mut li: usize = 0;
    while li < func.locals.len()
        invariant
            li <= func.locals@.len(),
        decreases func.locals@.len() - li,
    {
        push_str(output, "    let mut ");
        push_str(output, func.locals[li].0.as_str());
        push_str(output, ": ");
        let t = emit_type(&func.locals[li].1);
        push_str(output, t.as_str());
        push_str(output, ";\n");
        li = li + 1;
    }
    if func.locals.len() > 0 {
        push_char(output, '\n');
    }

    emit_structured_blocks(func, module, output);

    push_str(output, "}\n\n");
}

/// Whether a list of emitted labels holds the given one.
fn emitted_contains(emitted: &Vec<String>, label: &str) -> (r: bool) {
    let mut i: usize = 0;
    while i < emitted.len()
        invariant
            i <= emitted@.len(),
        decreases emitted@.len() - i,
    {
        if string_is(&emitted[i], label) {
            return true;
        }
        i = i + 1;
    }
    false
}

/// Whether a label names a loop condition block.
fn is_loop_header(label: &str) -> (r: bool) {
    let chars = crate::text::str_chars(label);
    starts_with_text(&chars, "for_cond_") || starts_with_text(&chars, "while_cond_")
}

/// Emits the blocks of a function with structured control flow, starting
/// from the entry block.
fn emit_structured_blocks(func: &Function, module: &Module, output: &mut String) {
    let mut emitted: Vec<String> = Vec::new();
    let fuel: u64 = block_fuel(func);
    match func.get_block("entry") {
        Some(_) => {
            emit_block_rec(func, "entry", &mut emitted, module, output, 1, fuel);
        },
        None => {},
    }
}

/// The fuel for the block emitter: proportional to the block count.
fn block_fuel(func: &Function) -> (r: u64) {
    let n = func.blocks.len() as u64;
    if n < 0x0100_0000_0000u64 {
        8 * n + 64
    } else {
        0xffff_ffff_ffff_0000u64
    }
}

/// Detects a bounded-for-loop pattern rooted at a condition label.
fn detect_for_loop(func: &Function, cond_label: &str) -> (r: Option<ForLoopInfo>) {
    let chars = crate::text::str_chars(cond_label);
    if !starts_with_text(&chars, "for_cond_") {
        return None;
    }
    let loop_id = tail_text(&chars, 9);

    let body_label = cat2("for_body_", loop_id.as_str());
    let inc_label = cat2("for_inc_", loop_id.as_str());
    let end_label = cat2("for_end_", loop_id.as_str());

    if matches!(func.get_block(body_label.as_str()), Option::<&BasicBlock>::None) {
        return None;
    }
    if matches!(func.get_block(inc_label.as_str()), Option::<&BasicBlock>::None) {
        return None;
    }
    if matches!(func.get_block(end_label.as_str()), Option::<&BasicBlock>::None) {
        return None;
    }

    let mut loop_var: String = String::new();
    let mut end_val: Value = Value::ConstInt(0);
    let mut cmp_op: CompareOp = CompareOp::Lt;

    match func.get_block(cond_label) {
        Some(cond_block) => {
            let mut i: usize = 0;
            while i < cond_block.instructions.len()
                invariant
                    i <= cond_block.instructions@.len(),
                decreases cond_block.instructions@.len() - i,
            {
                match &cond_block.instructions[i] {
                    Instruction::Load { ptr, .. } => {
                        match ptr {
                            Value::Local(name) => {
                                loop_var = name.clone();
                            },
                            _ => {},
                        }
                    },
                    Instruction::Compare { op, right, .. } => {
                        cmp_op = *op;
                        end_val = right.clone();
                    },
                    _ => {},
                }
                i = i + 1;
            }
        },
        None => {
            return None;
        },
    }

    Some(ForLoopInfo { loop_var, end_val, cmp_op, body_label, inc_label, end_label })
}

/// Detects a while-loop pattern rooted at a condition label.
fn detect_while_loop(func: &Function, cond_label: &str) -> (r: Option<WhileLoopInfo>) {
    let chars = crate::text::str_chars(cond_label);
    if !starts_with_text(&chars, "while_cond_") {
        return None;
    }
    let loop_id = tail_text(&chars, 11);

    let body_label = cat2("while_body_", loop_id.as_str());
    let end_label = cat2("while_end_", loop_id.as_str());

    if matches!(func.get_block(body_label.as_str()), Option::<&BasicBlock>::None) {
        return None;
    }
    if matches!(func.get_block(end_label.as_str()), Option::<&BasicBlock>::None) {
        return None;
    }

    Some(WhileLoopInfo { body_label, end_label })
}

/// Emits one block, following branches, turning detected loop patterns
/// into Rust loops and conditional branches into if/else.
fn emit_block_rec(
    func: &Function,
    label: &str,
    emitted: &mut Vec<String>,
    module: &Module,
    output: &mut String,
    depth: usize,
    fuel: u64,
)
    decreases fuel,
{
    if fuel == 0 {
        return;
    }
    let f = fuel - 1;

    if emitted_contains(emitted, label) {
        return;
    }

    let indent = crate::text::repeat_char(' ', saturating_mul4(depth));

    // A branch to a loop header turns into a structured loop.
    let block_insts: Vec<Instruction> = match func.get_block(label) {
        Some(b) => clone_instructions(&b.instructions),
        None => {
            return;
        },
    };

    let mut bi: usize = 0;
    while bi < block_insts.len()
        invariant
            bi <= block_insts@.len(),
            f < fuel,
        decreases block_insts@.len() - bi,
    {
        match &block_insts[bi] {
            Instruction::Branch { target } => {
                match detect_for_loop(func, target.as_str()) {
                    Some(info) => {
                        // Instructions before the branch.
                        let mut bj: usize = 0;
                        while bj < block_insts.len()
                            invariant
                                bj <= block_insts@.len(),
                            decreases block_insts@.len() - bj,
                        {
                            if matches!(block_insts[bj], Instruction::Branch { .. }) {
                                break;
                            }
                            emit_instruction(&block_insts[bj], module, output, depth);
                            bj = bj + 1;
                        }
                        emitted.push(label.to_owned());

                        emit_for_loop(func, target.as_str(), &info, emitted, module, output, depth, f);

                        emit_block_rec(func, info.end_label.as_str(), emitted, module, output, depth, f);
                        return;
                    },
                    None => {},
                }
                match detect_while_loop(func, target.as_str()) {
                    Some(info) => {
                        let mut bj: usize = 0;
                        while bj < block_insts.len()
                            invariant
                                bj <= block_insts@.len(),
                            decreases block_insts@.len() - bj,
                        {
                            if matches!(block_insts[bj], Instruction::Branch { .. }) {
                                break;
                            }
                            emit_instruction(&block_insts[bj], module, output, depth);
                            bj = bj + 1;
                        }
                        emitted.push(label.to_owned());

                        emit_while_loop(func, target.as_str(), &info, emitted, module, output, depth, f);

                        emit_block_rec(func, info.end_label.as_str(), emitted, module, output, depth, f);
                        return;
                    },
                    None => {},
                }
            },
            _ => {},
        }
        bi = bi + 1;
    }

    // Not a loop pattern: emit the instructions in order.
    emitted.push(label.to_owned());

    let header = is_loop_header(label);
    let mut ii: usize = 0;
    while ii < block_insts.len()
        invariant
            ii <= block_insts@.len(),
            f < fuel,
        decreases block_insts@.len() - ii,
    {
        match &block_insts[ii] {
            Instruction::Branch { target } => {
                if !emitted_contains(emitted, target.as_str()) && !is_loop_header(
                    target.as_str(),
                ) {
                    emit_block_rec(func, target.as_str(), emitted, module, output, depth, f);
                }
            },
            Instruction::CondBranch { cond, then_label, else_label } => {
                if header {
                    // Loop conditions are rendered by the loop emitters.
                } else {
                    push_str(output, indent.as_str());
                    push_str(output, "if ");
                    let c = emit_value(cond);
                    push_str(output, c.as_str());
                    push_str(output, " {\n");

                    if !emitted_contains(emitted, then_label.as_str()) {
                        emit_block_rec(
                            func,
                            then_label.as_str(),
                            emitted,
                            module,
                            output,
                            bump(depth),
                            f,
                        );
                    }

                    if !string_is(then_label, else_label.as_str()) {
                        push_str(output, indent.as_str());
                        push_str(output, "} else {\n");
                        if !emitted_contains(emitted, else_label.as_str()) {
                            emit_block_rec(
                                func,
                                else_label.as_str(),
                                emitted,
                                module,
                                output,
                                bump(depth),
                                f,
                            );
                        }
                    }

                    push_str(output, indent.as_str());
                    push_str(output, "}\n");
                }
            },
            other => {
                emit_instruction(other, module, output, depth);
            },
        }
        ii = ii + 1;
    }
}

/// The next nesting depth, saturating.
fn bump(depth: usize) -> (r: usize) {
    if depth < 0xffff {
        depth + 1
    } else {
        depth
    }
}

/// A saturating small multiply for indent widths.
fn saturating_mul4(depth: usize) -> (r: usize) {
    if depth < 1024 {
        4 * depth
    } else {
        4096
    }
}

/// Clones a vector of instructions.
fn clone_instructions(v: &Vec<Instruction>) -> (r: Vec<Instruction>) {
    let mut r: Vec<Instruction> = Vec::new();
    let mut i: usize = 0;
    while i < v.len()
        invariant
            i <= v@.len(),
        decreases v@.len() - i,
    {
        r.push(clone_instruction(&v[i]));
        i = i + 1;
    }
    r
}

/// Clones one instruction.
fn clone_instruction(inst: &Instruction) -> (r: Instruction) {
    match inst {
        Instruction::Alloca { dest, ty } => Instruction::Alloca {
            dest: dest.clone(),
            ty: ty.clone(),
        },
        Instruction::Store { value, ptr } => Instruction::Store {
            value: value.clone(),
            ptr: ptr.clone(),
        },
        Instruction::Load { dest, ptr, ty } => Instruction::Load {
            dest: *dest,
            ptr: ptr.clone(),
            ty: ty.clone(),
        },
        Instruction::Binary { dest, op, left, right } => Instruction::Binary {
            dest: *dest,
            op: *op,
            left: left.clone(),
            right: right.clone(),
        },
        Instruction::Compare { dest, op, left, right } => Instruction::Compare {
            dest: *dest,
            op: *op,
            left: left.clone(),
            right: right.clone(),
        },
        Instruction::Not { dest, value } => Instruction::Not {
            dest: *dest,
            value: value.clone(),
        },
        Instruction::Neg { dest, value } => Instruction::Neg {
            dest: *dest,
            value: value.clone(),
        },
        Instruction::Call { dest, func, args } => Instruction::Call {
            dest: *dest,
            func: func.clone(),
            args: clone_values(args),
        },
        Instruction::Return(value) => Instruction::Return(value.clone()),
        Instruction::Branch { target } => Instruction::Branch { target: target.clone() },
        Instruction::CondBranch { cond, then_label, else_label } => Instruction::CondBranch {
            cond: cond.clone(),
            then_label: then_label.clone(),
            else_label: else_label.clone(),
        },
        Instruction::Phi { dest, incoming } => {
            let mut inc: Vec<(Value, String)> = Vec::new();
            let mut i: usize = 0;
            while i < incoming.len()
                invariant
                    i <= incoming@.len(),
                decreases incoming@.len() - i,
            {
                inc.push((incoming[i].0.clone(), incoming[i].1.clone()));
                i = i + 1;
            }
            Instruction::Phi { dest: *dest, incoming: inc }
        },
        Instruction::GetField { dest, ptr, struct_name, field_index, field_name } => {
            Instruction::GetField {
                dest: *dest,
                ptr: ptr.clone(),
                struct_name: struct_name.clone(),
                field_index: *field_index,
                field_name: field_name.clone(),
            }
        },
        Instruction::SetField { ptr, struct_name, field_index, field_name, value } => {
            Instruction::SetField {
                ptr: ptr.clone(),
                struct_name: struct_name.clone(),
                field_index: *field_index,
                field_name: field_name.clone(),
                value: value.clone(),
            }
        },
        Instruction::GetElement { dest, ptr, index } => Instruction::GetElement {
            dest: *dest,
            ptr: ptr.clone(),
            index: index.clone(),
        },
        Instruction::SetElement { ptr, index, value } => Instruction::SetElement {
            ptr: ptr.clone(),
            index: index.clone(),
            value: value.clone(),
        },
        Instruction::Await { dest, future } => Instruction::Await {
            dest: *dest,
            future: future.clone(),
        },
        Instruction::NewStruct { dest, struct_name } => Instruction::NewStruct {
            dest: *dest,
            struct_name: struct_name.clone(),
        },
        Instruction::NewArray { dest, elem_type, size } => Instruction::NewArray {
            dest: *dest,
            elem_type: elem_type.clone(),
            size: size.clone(),
        },
        Instruction::Cast { dest, value, to_type } => Instruction::Cast {
            dest: *dest,
            value: value.clone(),
            to_type: to_type.clone(),
        },
        Instruction::Comment(text) => Instruction::Comment(text.clone()),
    }
}

/// Clones a vector of values.
fn clone_values(v: &Vec<Value>) -> (r: Vec<Value>) {
    let mut r: Vec<Value> = Vec::new();
    let mut i: usize = 0;
    while i < v.len()
        invariant
            i <= v@.len(),
        decreases v@.len() - i,
    {
        r.push(v[i].clone());
        i = i + 1;
    }
    r
}

/// Emits a detected bounded for loop as a Rust while loop.
fn emit_for_loop(
    func: &Function,
    cond_label: &str,
    info: &ForLoopInfo,
    emitted: &mut Vec<String>,
    module: &Module,
    output: &mut String,
    depth: usize,
    fuel: u64,
)
    decreases fuel,
{
    let indent = crate::text::repeat_char(' ', saturating_mul4(depth));
    let indent2 = crate::text::repeat_char(' ', saturating_mul4(bump(depth)));

    emitted.push(cond_label.to_owned());
    emitted.push(info.body_label.clone());
    emitted.push(info.inc_label.clone());

    let cmp_str: &str = match info.cmp_op {
        CompareOp::Lt => "<",
        CompareOp::Le => "<=",
        CompareOp::Gt => ">",
        CompareOp::Ge => ">=",
        _ => "<",
    };

    push_str(output, indent.as_str());
    push_str(output, "while ");
    push_str(output, info.loop_var.as_str());
    push_char(output, ' ');
    push_str(output, cmp_str);
    push_char(output, ' ');
    let ev = emit_value(&info.end_val);
    push_str(output, ev.as_str());
    push_str(output, " {\n");

    match func.get_block(info.body_label.as_str()) {
        Some(body_block) => {
            let mut i: usize = 0;
            while i < body_block.instructions.len()
                invariant
                    i <= body_block.instructions@.len(),
                decreases body_block.instructions@.len() - i,
            {
                match &body_block.instructions[i] {
                    Instruction::Branch { .. } => {},
                    other => {
                        emit_instruction(other, module, output, bump(depth));
                    },
                }
                i = i + 1;
            }
        },
        None => {},
    }

    match func.get_block(info.inc_label.as_str()) {
        Some(inc_block) => {
            let mut i: usize = 0;
            while i < inc_block.instructions.len()
                invariant
                    i <= inc_block.instructions@.len(),
                decreases inc_block.instructions@.len() - i,
            {
                match &inc_block.instructions[i] {
                    Instruction::Branch { .. } => {},
                    Instruction::Load { .. } => {},
                    Instruction::Store { .. } => {},
                    Instruction::Binary { dest, op, left: _, right } => {
                        let plain_increment = matches!(op, BinaryOp::Add) && matches!(
                            right,
                            Value::ConstInt(1i64),
                        );
                        if plain_increment {
                            push_str(output, indent2.as_str());
                            push_str(output, info.loop_var.as_str());
                            push_str(output, " += 1;\n");
                        } else {
                            push_str(output, indent2.as_str());
                            push_str(output, "let __t");
                            let d = u64_to_dec(*dest as u64);
                            push_str(output, d.as_str());
                            push_str(output, " = ");
                            push_str(output, info.loop_var.as_str());
                            push_char(output, ' ');
                            push_str(output, emit_binary_op(op));
                            push_char(output, ' ');
                            let rv = emit_value(right);
                            push_str(output, rv.as_str());
                            push_str(output, ";\n");
                            push_str(output, indent2.as_str());
                            push_str(output, info.loop_var.as_str());
                            push_str(output, " = __t");
                            push_str(output, d.as_str());
                            push_str(output, ";\n");
                        }
                    },
                    other => {
                        emit_instruction(other, module, output, bump(depth));
                    },
                }
                i = i + 1;
            }
        },
        None => {},
    }

    push_str(output, indent.as_str());
    push_str(output, "}\n");
}

/// Emits a detected while loop.
fn emit_while_loop(
    func: &Function,
    cond_label: &str,
    info: &WhileLoopInfo,
    emitted: &mut Vec<String>,
    module: &Module,
    output: &mut String,
    depth: usize,
    fuel: u64,
)
    decreases fuel,
{
    let indent = crate::text::repeat_char(' ', saturating_mul4(depth));

    emitted.push(cond_label.to_owned());
    emitted.push(info.body_label.clone());

    let mut condition: String = "true".to_owned();
    match func.get_block(cond_label) {
        Some(cond_block) => {
            let mut i: usize = 0;
            while i < cond_block.instructions.len()
                invariant
                    i <= cond_block.instructions@.len(),
                decreases cond_block.instructions@.len() - i,
            {
                match &cond_block.instructions[i] {
                    Instruction::Compare { dest: _, op, left, right } => {
                        let lv = emit_value(left);
                        let rv = emit_value(right);
                        let mut c = lv;
                        push_char(&mut c, ' ');
                        push_str(&mut c, emit_compare_op(op));
                        push_char(&mut c, ' ');
                        push_str(&mut c, rv.as_str());
                        condition = c;
                        break;
                    },
                    _ => {},
                }
                i = i + 1;
            }
        },
        None => {},
    }

    push_str(output, indent.as_str());
    push_str(output, "while ");
    push_str(output, condition.as_str());
    push_str(output, " {\n");

    match func.get_block(info.body_label.as_str()) {
        Some(body_block) => {
            let mut i: usize = 0;
            while i < body_block.instructions.len()
                invariant
                    i <= body_block.instructions@.len(),
                decreases body_block.instructions@.len() - i,
            {
                match &body_block.instructions[i] {
                    Instruction::Branch { .. } => {},
                    other => {
                        emit_instruction(other, module, output, bump(depth));
                    },
                }
                i = i + 1;
            }
        },
        None => {},
    }

    push_str(output, indent.as_str());
    push_str(output, "}\n");
}


/// Emits one instruction as a Rust statement.
fn emit_instruction(inst: &Instruction, module: &Module, output: &mut String, depth: usize) {
    let indent = crate::text::repeat_char(' ', saturating_mul4(depth));
    match inst {
        Instruction::Alloca { .. } => {},
        Instruction::Store { value, ptr } => {
            push_str(output, indent.as_str());
            let p = emit_value(ptr);
            push_str(output, p.as_str());
            push_str(output, " = ");
            let v = emit_value(value);
            push_str(output, v.as_str());
            push_str(output, ";\n");
        },
        Instruction::Load { dest, ptr, .. } => {
            push_str(output, indent.as_str());
            push_str(output, "let __t");
            let d = u64_to_dec(*dest as u64);
            push_str(output, d.as_str());
            push_str(output, " = ");
            let p = emit_value(ptr);
            push_str(output, p.as_str());
            push_str(output, ".clone();\n");
        },
        Instruction::Binary { dest, op, left, right } => {
            push_str(output, indent.as_str());
            push_str(output, "let __t");
            let d = u64_to_dec(*dest as u64);
            push_str(output, d.as_str());
            push_str(output, " = ");
            let l = emit_value(left);
            push_str(output, l.as_str());
            push_char(output, ' ');
            push_str(output, emit_binary_op(op));
            push_char(output, ' ');
            let rv = emit_value(right);
            push_str(output, rv.as_str());
            push_str(output, ";\n");
        },
        Instruction::Compare { dest, op, left, right } => {
            push_str(output, indent.as_str());
            push_str(output, "let __t");
            let d = u64_to_dec(*dest as u64);
            push_str(output, d.as_str());
            push_str(output, " = ");
            let l = emit_value(left);
            push_str(output, l.as_str());
            push_char(output, ' ');
            push_str(output, emit_compare_op(op));
            push_char(output, ' ');
            let rv = emit_value(right);
            push_str(output, rv.as_str());
            push_str(output, ";\n");
        },
        Instruction::Not { dest, value } => {
            push_str(output, indent.as_str());
            push_str(output, "let __t");
            let d = u64_to_dec(*dest as u64);
            push_str(output, d.as_str());
            push_str(output, " = !");
            let v = emit_value(value);
            push_str(output, v.as_str());
            push_str(output, ";\n");
        },
        Instruction::Neg { dest, value } => {
            push_str(output, indent.as_str());
            push_str(output, "let __t");
            let d = u64_to_dec(*dest as u64);
            push_str(output, d.as_str());
            push_str(output, " = -");
            let v = emit_value(value);
            push_str(output, v.as_str());
            push_str(output, ";\n");
        },
        Instruction::Call { dest, func, args } => {
            emit_call(dest, func, args, output, indent.as_str());
        },
        Instruction::Return(value) => {
            push_str(output, indent.as_str());
            match value {
                Value::Void => {
                    push_str(output, "return;\n");
                },
                other => {
                    push_str(output, "return ");
                    let v = emit_value(other);
                    push_str(output, v.as_str());
                    push_str(output, ";\n");
                },
            }
        },
        Instruction::Await { dest, future } => {
            push_str(output, indent.as_str());
            push_str(output, "let __t");
            let d = u64_to_dec(*dest as u64);
            push_str(output, d.as_str());
            push_str(output, " = ");
            let v = emit_value(future);
            push_str(output, v.as_str());
            push_str(output, ".await;\n");
        },
        Instruction::GetField { dest, ptr, struct_name, field_index, field_name } => {
            let resolved = resolve_field_name(module, struct_name, *field_index, field_name);
            push_str(output, indent.as_str());
            push_str(output, "let __t");
            let d = u64_to_dec(*dest as u64);
            push_str(output, d.as_str());
            push_str(output, " = ");
            let p = emit_value(ptr);
            push_str(output, p.as_str());
            push_char(output, '.');
            push_str(output, resolved.as_str());
            push_str(output, ";\n");
        },
        Instruction::SetField { ptr, struct_name, field_index, field_name, value } => {
            let resolved = resolve_field_name(module, struct_name, *field_index, field_name);
            push_str(output, indent.as_str());
            let p = emit_value(ptr);
            push_str(output, p.as_str());
            push_char(output, '.');
            push_str(output, resolved.as_str());
            push_str(output, " = ");
            let v = emit_value(value);
            push_str(output, v.as_str());
            push_str(output, ";\n");
        },
        Instruction::GetElement { dest, ptr, index } => {
            push_str(output, indent.as_str());
            push_str(output, "let __t");
            let d = u64_to_dec(*dest as u64);
            push_str(output, d.as_str());
            push_str(output, " = ");
            let p = emit_value(ptr);
            push_str(output, p.as_str());
            push_char(output, '[');
            let ix = emit_value(index);
            push_str(output, ix.as_str());
            push_str(output, " as usize];\n");
        },
        Instruction::SetElement { ptr, index, value } => {
            push_str(output, indent.as_str());
            let p = emit_value(ptr);
            push_str(output, p.as_str());
            push_char(output, '[');
            let ix = emit_value(index);
            push_str(output, ix.as_str());
            push_str(output, " as usize] = ");
            let v = emit_value(value);
            push_str(output, v.as_str());
            push_str(output, ";\n");
        },
        Instruction::NewStruct { dest, struct_name } => {
            push_str(output, indent.as_str());
            push_str(output, "let mut __t");
            let d = u64_to_dec(*dest as u64);
            push_str(output, d.as_str());
            push_str(output, " = ");
            push_str(output, struct_name.as_str());
            push_str(output, " { ");
            match module.get_struct(struct_name.as_str()) {
                Some(struct_def) => {
                    let mut i: usize = 0;
                    while i < struct_def.fields.len()
                        invariant
                            i <= struct_def.fields@.len(),
                        decreases struct_def.fields@.len() - i,
                    {
                        if i > 0 {
                            push_str(output, ", ");
                        }
                        push_str(output, struct_def.fields[i].0.as_str());
                        push_str(output, ": ");
                        let default_val: &str = match &struct_def.fields[i].1 {
                            IrType::I64 => "0",
                            IrType::F64 => "0.0",
                            IrType::Bool => "false",
                            IrType::String => "MendesString::new(\"\")",
                            _ => "Default::default()",
                        };
                        push_str(output, default_val);
                        i = i + 1;
                    }
                },
                None => {},
            }
            push_str(output, " };\n");
        },
        Instruction::NewArray { dest, elem_type, size } => {
            push_str(output, indent.as_str());
            push_str(output, "let __t");
            let d = u64_to_dec(*dest as u64);
            push_str(output, d.as_str());
            push_str(output, ": Vec<");
            let t = emit_type(elem_type);
            push_str(output, t.as_str());
            push_str(output, "> = Vec::with_capacity(");
            let sz = emit_value(size);
            push_str(output, sz.as_str());
            push_str(output, " as usize);\n");
        },
        Instruction::Cast { dest, value, to_type } => {
            push_str(output, indent.as_str());
            push_str(output, "let __t");
            let d = u64_to_dec(*dest as u64);
            push_str(output, d.as_str());
            push_str(output, " = ");
            let v = emit_value(value);
            push_str(output, v.as_str());
            push_str(output, " as ");
            let t = emit_type(to_type);
            push_str(output, t.as_str());
            push_str(output, ";\n");
        },
        Instruction::Comment(text) => {
            push_str(output, indent.as_str());
            push_str(output, "// ");
            push_str(output, text.as_str());
            push_char(output, '\n');
        },
        Instruction::Branch { .. } | Instruction::CondBranch { .. } | Instruction::Phi { .. }
            => {},
    }
}

/// The field name at the given index, falling back on the recorded one.
fn resolve_field_name(
    module: &Module,
    struct_name: &String,
    field_index: usize,
    field_name: &String,
) -> (r: String) {
    match module.get_struct(struct_name.as_str()) {
        Some(sdef) => {
            if field_index < sdef.fields.len() {
                sdef.fields[field_index].0.clone()
            } else {
                field_name.clone()
            }
        },
        None => field_name.clone(),
    }
}

/// Emits a call, mapping the runtime helper names to their Rust forms.
fn emit_call(
    dest: &Option<u32>,
    func: &String,
    args: &Vec<Value>,
    output: &mut String,
    indent: &str,
) {
    let mut args_text: Vec<String> = Vec::new();
    let mut i: usize = 0;
    while i < args.len()
        invariant
            i <= args@.len(),
        decreases args@.len() - i,
    {
        args_text.push(emit_value(&args[i]));
        i = i + 1;
    }
    let joined = crate::text::join(&args_text, ", ");

    let first: &str = if args_text.len() > 0 {
        args_text[0].as_str()
    } else {
        "()"
    };

    if string_is(func, "print") || string_is(func, "__builtin_print") {
        push_str(output, indent);
        push_str(output, "print!(\"{}\", ");
        push_str(output, joined.as_str());
        push_str(output, ");\n");
        return;
    }
    if string_is(func, "println") || string_is(func, "__builtin_println") {
        push_str(output, indent);
        if args_text.len() == 0 {
            push_str(output, "println!();\n");
        } else {
            push_str(output, "println!(\"{}\", ");
            push_str(output, joined.as_str());
            push_str(output, ");\n");
        }
        return;
    }
    if string_is(func, "log") || string_is(func, "__builtin_log") {
        push_str(output, indent);
        push_str(output, "eprintln!(\"[LOG] {}\", ");
        push_str(output, joined.as_str());
        push_str(output, ");\n");
        return;
    }
    match dest {
        Some(d) => {
            let dtext = u64_to_dec(*d as u64);
            if string_is(func, "len") || string_is(func, "__builtin_len") {
                push_str(output, indent);
                push_str(output, "let __t");
                push_str(output, dtext.as_str());
                push_str(output, " = ");
                push_str(output, first);
                push_str(output, ".len() as i64;\n");
                return;
            }
            if string_is(func, "str") || string_is(func, "__builtin_str") {
                push_str(output, indent);
                push_str(output, "let __t");
                push_str(output, dtext.as_str());
                push_str(output, " = MendesString::new(&format!(\"{}\", ");
                push_str(output, first);
                push_str(output, "));\n");
                return;
            }
            if string_is(func, "int") || string_is(func, "__builtin_int") {
                push_str(output, indent);
                push_str(output, "let __t");
                push_str(output, dtext.as_str());
                push_str(output, " = ");
                push_str(output, first);
                push_str(output, ".as_str().parse::<i64>().unwrap_or(0);\n");
                return;
            }
            if string_is(func, "float") || string_is(func, "__builtin_float") {
                push_str(output, indent);
                push_str(output, "let __t");
                push_str(output, dtext.as_str());
                push_str(output, " = ");
                push_str(output, first);
                push_str(output, ".as_str().parse::<f64>().unwrap_or(0.0);\n");
                return;
            }
            if string_is(func, "__result_ok") {
                push_str(output, indent);
                push_str(output, "let __t");
                push_str(output, dtext.as_str());
                push_str(output, " = MendesResult::Ok(");
                push_str(output, first);
                push_str(output, ");\n");
                return;
            }
            if string_is(func, "__result_err") {
                push_str(output, indent);
                push_str(output, "let __t");
                push_str(output, dtext.as_str());
                push_str(output, " = MendesResult::Err(");
                push_str(output, first);
                push_str(output, ");\n");
                return;
            }
            if string_is(func, "__option_some") {
                push_str(output, indent);
                push_str(output, "let __t");
                push_str(output, dtext.as_str());
                push_str(output, " = MendesOption::Some(");
                push_str(output, first);
                push_str(output, ");\n");
                return;
            }
            if string_is(func, "__is_none") {
                push_str(output, indent);
                push_str(output, "let __t");
                push_str(output, dtext.as_str());
                push_str(output, " = ");
                push_str(output, first);
                push_str(output, ".is_none();\n");
                return;
            }
            if string_is(func, "__is_some") {
                push_str(output, indent);
                push_str(output, "let __t");
                push_str(output, dtext.as_str());
                push_str(output, " = ");
                push_str(output, first);
                push_str(output, ".is_some();\n");
                return;
            }
            if string_is(func, "__is_ok") || string_is(func, "__try_is_ok") {
                push_str(output, indent);
                push_str(output, "let __t");
                push_str(output, dtext.as_str());
                push_str(output, " = ");
                push_str(output, first);
                push_str(output, ".is_ok();\n");
                return;
            }
            if string_is(func, "__is_err") {
                push_str(output, indent);
                push_str(output, "let __t");
                push_str(output, dtext.as_str());
                push_str(output, " = ");
                push_str(output, first);
                push_str(output, ".is_err();\n");
                return;
            }
            if string_is(func, "__extract_variant_field") {
                push_str(output, indent);
                push_str(output, "let __t");
                push_str(output, dtext.as_str());
                push_str(output, " = ");
                push_str(output, first);
                push_str(output, ".unwrap_field(");
                if args_text.len() > 1 {
                    push_str(output, args_text[1].as_str());
                }
                push_str(output, ");\n");
                return;
            }
            if string_is(func, "__unwrap") || string_is(func, "__try_unwrap") {
                push_str(output, indent);
                push_str(output, "let __t");
                push_str(output, dtext.as_str());
                push_str(output, " = ");
                push_str(output, first);
                push_str(output, ".unwrap();\n");
                return;
            }
            if string_is(func, "__try_propagate") {
                push_str(output, indent);
                push_str(output, "let __t");
                push_str(output, dtext.as_str());
                push_str(output, " = ");
                push_str(output, first);
                push_str(output, ".map_err(|e| e.into()).err().unwrap();\n");
                return;
            }
            if string_is(func, "__string_format") {
                push_str(output, indent);
                push_str(output, "let __t");
                push_str(output, dtext.as_str());
                if args_text.len() == 0 {
                    push_str(output, " = MendesString::new(\"\");\n");
                } else {
                    push_str(output, " = MendesString::new(&format!(\"");
                    let mut k: usize = 0;
                    while k < args_text.len()
                        invariant
                            k <= args_text@.len(),
                        decreases args_text@.len() - k,
                    {
                        push_char(output, '{');
                        push_str(output, args_text[k].as_str());
                        push_char(output, '}');
                        k = k + 1;
                    }
                    push_str(output, "\"));\n");
                }
                return;
            }

            push_str(output, indent);
            push_str(output, "let __t");
            push_str(output, dtext.as_str());
            push_str(output, " = ");
            push_str(output, func.as_str());
            push_char(output, '(');
            push_str(output, joined.as_str());
            push_str(output, ");\n");
        },
        None => {
            push_str(output, indent);
            push_str(output, func.as_str());
            push_char(output, '(');
            push_str(output, joined.as_str());
            push_str(output, ");\n");
        },
    }
}

/// Emits the trait implementations, with each method body inline.
fn emit_impls(module: &Module, output: &mut String) {
    if module.impls.len() == 0 {
        return;
    }
    push_str(output, "// Trait implementations\n");
    let mut i: usize = 0;
    while i < module.impls.len()
        invariant
            i <= module.impls@.len(),
        decreases module.impls@.len() - i,
    {
        let generics = emit_generic_params(&module.impls[i].generic_params);
        let gen_args = emit_generic_args(&module.impls[i].generic_params);

        push_str(output, "impl");
        push_str(output, generics.as_str());
        push_char(output, ' ');
        push_str(output, module.impls[i].trait_name.as_str());
        push_str(output, " for ");
        push_str(output, module.impls[i].target_type.as_str());
        push_str(output, gen_args.as_str());
        push_str(output, " {\n");

        let mut j: usize = 0;
        while j < module.impls[i].methods.len()
            invariant
                i < module.impls@.len(),
                j <= module.impls@[i as int].methods@.len(),
            decreases module.impls@[i as int].methods@.len() - j,
        {
            match module.get_function(module.impls[i].methods[j].as_str()) {
                Some(func) => {
                    let short_name = last_path_segment(module.impls[i].methods[j].as_str());

                    push_str(output, "    ");
                    if func.is_async {
                        push_str(output, "async ");
                    }
                    push_str(output, "fn ");
                    push_str(output, short_name.as_str());
                    push_str(output, "(&self");

                    let mut k: usize = 1;
                    while k < func.params.len()
                        invariant
                            1 <= k,
                            k <= func.params@.len() || k == 1,
                        decreases func.params@.len() - k,
                    {
                        push_str(output, ", __arg");
                        let n = u64_to_dec(k as u64);
                        push_str(output, n.as_str());
                        push_str(output, ": ");
                        let t = emit_type(&func.params[k].1);
                        push_str(output, t.as_str());
                        k = k + 1;
                    }

                    push_str(output, ") -> ");
                    let rt = emit_type(&func.return_type);
                    push_str(output, rt.as_str());
                    push_str(output, " {\n");

                    emit_structured_blocks(func, module, output);

                    push_str(output, "    }\n");
                },
                None => {},
            }
            j = j + 1;
        }

        push_str(output, "}\n\n");
        i = i + 1;
    }
}

/// The text after the final `::` of a path-qualified name.
fn last_path_segment(name: &str) -> (r: String) {
    let chars = crate::text::str_chars(name);
    let mut start: usize = 0;
    let mut i: usize = 0;
    while i < chars.len()
        invariant
            i <= chars@.len(),
            start <= chars@.len(),
        decreases chars@.len() - i,
    {
        if chars[i] == ':' && i + 1 < chars.len() && chars[i + 1] == ':' {
            if i + 2 <= chars.len() {
                start = i + 2;
            }
        }
        i = i + 1;
    }
    tail_text(&chars, start)
}

/// Parameters declared in a route path, as name and type-tag pairs.
fn route_path_params(path: &str) -> (r: Vec<(String, String)>) {
    let chars = crate::text::str_chars(path);
    let n = chars.len();
    let mut params: Vec<(String, String)> = Vec::new();
    let mut i: usize = 0;
    while i < n
        invariant
            n == chars@.len(),
            i <= n,
        decreases n - i,
    {
        let c = chars[i];
        i = i + 1;
        if c == '{' {
            let mut name: Vec<char> = Vec::new();
            let mut ty: Vec<char> = Vec::new();
            let mut in_type = false;
            let ghost i0 = i;
            while i < n
                invariant
                    n == chars@.len(),
                    i0 <= i <= n,
                decreases n - i,
            {
                let c2 = chars[i];
                i = i + 1;
                if c2 == '}' {
                    break;
                } else if c2 == ':' {
                    in_type = true;
                } else if in_type {
                    ty.push(c2);
                } else {
                    name.push(c2);
                }
            }
            if name.len() > 0 {
                let tname = crate::text::chars_to_string(&ty);
                let tfinal: String = if tname.as_str().is_empty() {
                    "string".to_owned()
                } else {
                    tname
                };
                params.push((crate::text::chars_to_string(&name), tfinal));
            }
        }
    }
    params
}

/// Emits the router setup for the HTTP and WebSocket routes.
fn emit_route_setup(module: &Module, output: &mut String) {
    if module.routes.len() == 0 && module.websocket_routes.len() == 0 {
        return;
    }
    let has_db = module.databases.len() > 0;

    if has_db {
        push_str(output, "fn setup_routes(router: &mut Router, db: Arc<DbContext>) {\n");
    } else {
        push_str(output, "fn setup_routes(router: &mut Router) {\n");
    }

    let mut i: usize = 0;
    while i < module.routes.len()
        invariant
            i <= module.routes@.len(),
        decreases module.routes@.len() - i,
    {
        let method_lower = lowercase_ascii(module.routes[i].method.as_str());
        let path_params = route_path_params(module.routes[i].path.as_str());

        if has_db {
            push_str(output, "    let db = db.clone();\n");
        }

        push_str(output, "    router.");
        push_str(output, method_lower.as_str());
        push_str(output, "(\"");
        push_str(output, module.routes[i].path.as_str());
        push_str(output, "\", move |req| {\n");
        if has_db {
            push_str(output, "        let db = db.clone();\n");
        }
        push_str(output, "        async move {\n");

        let mut pi: usize = 0;
        while pi < path_params.len()
            invariant
                pi <= path_params@.len(),
            decreases path_params@.len() - pi,
        {
            if string_is(&path_params[pi].1, "int") {
                push_str(output, "            let ");
                push_str(output, path_params[pi].0.as_str());
                push_str(output, ": i64 = req.param_int(\"");
                push_str(output, path_params[pi].0.as_str());
                push_str(output, "\").unwrap_or(0);\n");
            } else {
                push_str(output, "            let ");
                push_str(output, path_params[pi].0.as_str());
                push_str(
                    output,
                    ": MendesString = MendesString::new(&req.param(\"",
                );
                push_str(output, path_params[pi].0.as_str());
                push_str(output, "\").cloned().unwrap_or_default());\n");
            }
            pi = pi + 1;
        }

        let mut mi: usize = 0;
        while mi < module.routes[i].middlewares.len()
            invariant
                i < module.routes@.len(),
                mi <= module.routes@[i as int].middlewares@.len(),
            decreases module.routes@[i as int].middlewares@.len() - mi,
        {
            push_str(output, "            if let Some(resp) = __middleware_");
            push_str(output, module.routes[i].middlewares[mi].as_str());
            push_str(output, "(&req).await {\n");
            push_str(output, "                return resp;\n");
            push_str(output, "            }\n");
            mi = mi + 1;
        }

        // The handler call.
        push_str(output, "            let result = ");
        push_str(output, module.routes[i].handler.as_str());
        push_str(output, "(req");
        let mut pj: usize = 0;
        while pj < path_params.len()
            invariant
                pj <= path_params@.len(),
            decreases path_params@.len() - pj,
        {
            push_str(output, ", ");
            push_str(output, path_params[pj].0.as_str());
            pj = pj + 1;
        }
        if has_db {
            push_str(output, ", &db");
        }
        push_char(output, ')');
        if module.routes[i].is_async {
            push_str(output, ".await");
        }
        push_str(output, ";\n");

        push_str(output, "            Response::from(result)\n");
        push_str(output, "        }\n");
        push_str(output, "    });\n");
        i = i + 1;
    }

    let mut wi: usize = 0;
    while wi < module.websocket_routes.len()
        invariant
            wi <= module.websocket_routes@.len(),
        decreases module.websocket_routes@.len() - wi,
    {
        push_str(output, "\n    // WebSocket endpoint: ");
        push_str(output, module.websocket_routes[wi].path.as_str());
        push_char(output, '\n');
        push_str(output, "    router.ws(\"");
        push_str(output, module.websocket_routes[wi].path.as_str());
        push_str(output, "\", move |ws| {\n");
        push_str(output, "        async move {\n");

        match &module.websocket_routes[wi].on_connect {
            Some(handler) => {
                push_str(output, "            ");
                push_str(output, handler.as_str());
                push_str(output, "(ws.clone()).await;\n");
            },
            None => {},
        }
        match &module.websocket_routes[wi].on_message {
            Some(handler) => {
                push_str(output, "            while let Some(msg) = ws.recv().await {\n");
                push_str(output, "                ");
                push_str(output, handler.as_str());
                push_str(output, "(ws.clone(), msg).await;\n");
                push_str(output, "            }\n");
            },
            None => {},
        }
        match &module.websocket_routes[wi].on_disconnect {
            Some(handler) => {
                push_str(output, "            ");
                push_str(output, handler.as_str());
                push_str(output, "(ws.clone()).await;\n");
            },
            None => {},
        }

        push_str(output, "        }\n");
        push_str(output, "    });\n");
        wi = wi + 1;
    }

    push_str(output, "}\n\n");
}

/// Lowercases ASCII letters of a short name.
fn lowercase_ascii(s: &str) -> (r: String) {
    let chars = crate::text::str_chars(s);
    let mut out: Vec<char> = Vec::new();
    let mut i: usize = 0;
    while i < chars.len()
        invariant
            i <= chars@.len(),
        decreases chars@.len() - i,
    {
        let c = chars[i];
        let v = c as u32;
        if 0x41 <= v && v <= 0x5a {
            let lower = v + 0x20;
            out.push(char_from_ascii(lower));
        } else {
            out.push(c);
        }
        i = i + 1;
    }
    crate::text::chars_to_string(&out)
}

/// The character for an ASCII code point.
fn char_from_ascii(v: u32) -> (r: char)
    requires
        v < 0x80,
{
    if v == 0x61 { 'a' } else if v == 0x62 { 'b' } else if v == 0x63 { 'c' }
    else if v == 0x64 { 'd' } else if v == 0x65 { 'e' } else if v == 0x66 { 'f' }
    else if v == 0x67 { 'g' } else if v == 0x68 { 'h' } else if v == 0x69 { 'i' }
    else if v == 0x6a { 'j' } else if v == 0x6b { 'k' } else if v == 0x6c { 'l' }
    else if v == 0x6d { 'm' } else if v == 0x6e { 'n' } else if v == 0x6f { 'o' }
    else if v == 0x70 { 'p' } else if v == 0x71 { 'q' } else if v == 0x72 { 'r' }
    else if v == 0x73 { 's' } else if v == 0x74 { 't' } else if v == 0x75 { 'u' }
    else if v == 0x76 { 'v' } else if v == 0x77 { 'w' } else if v == 0x78 { 'x' }
    else if v == 0x79 { 'y' } else if v == 0x7a { 'z' } else { '_' }
}

/// Emits the program entry point.
fn emit_main(module: &Module, output: &mut String) {
    let has_db = module.databases.len() > 0;

    push_str(output, "#[tokio::main]\n");
    push_str(output, "async fn main() {\n");
    push_str(output, "    mendes_runtime::init();\n\n");

    if has_db {
        push_str(output, "    let db = Arc::new(DbContext::new().await);\n\n");
    }

    push_str(output, "    let mut router = Router::new();\n");
    if module.routes.len() > 0 || module.websocket_routes.len() > 0 {
        if has_db {
            push_str(output, "    setup_routes(&mut router, db);\n");
        } else {
            push_str(output, "    setup_routes(&mut router);\n");
        }
    }
    push_char(output, '\n');

    match &module.server {
        Some(server) => {
            push_str(output, "    println!(\"Starting server on ");
            push_str(output, server.host.as_str());
            push_char(output, ':');
            let p = u64_to_dec(server.port as u64);
            push_str(output, p.as_str());
            push_str(output, "\");\n");

            push_str(output, "    Server::new(\"");
            push_str(output, server.host.as_str());
            push_char(output, ':');
            push_str(output, p.as_str());
            push_str(output, "\")\n");
            push_str(output, "        .router(router)\n");
            push_str(output, "        .run()\n");
            push_str(output, "        .await\n");
            push_str(output, "        .expect(\"server error\");\n");
        },
        None => {
            push_str(output, "    println!(\"No server configuration found\");\n");
        },
    }

    push_str(output, "}\n");
}

} // verus!
