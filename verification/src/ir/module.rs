//! The IR module: functions of basic blocks, routes, declarations, and a
//! value-unique string table.

use vstd::prelude::*;

use crate::assoc::{assoc_find, assoc_get, assoc_set};
use crate::ir::instruction::{spec_dest, spec_is_terminator, Instruction, Value};
use crate::ir::types::{GenericParam, IrType, StructDef};
use crate::text::{push_char, push_str, string_is, u64_to_dec};

verus! {

/// A basic block: a label and an ordered instruction sequence.
#[derive(Debug)]
pub struct BasicBlock {
    /// The block label.
    pub label: String,
    /// The instructions, in order.
    pub instructions: Vec<Instruction>,
}

/// Whether a block ends in a terminator instruction.
pub open spec fn spec_block_terminated(b: BasicBlock) -> bool {
    b.instructions@.len() > 0 && spec_is_terminator(b.instructions@.last())
}

impl BasicBlock {
    pub fn new(label: &str) -> (r: Self)
        ensures
            r.label@ == label@,
            r.instructions@ =~= Seq::<Instruction>::empty(),
    {
        BasicBlock { label: label.to_owned(), instructions: Vec::new() }
    }

    /// Checks whether the block ends in a terminator instruction.
    pub fn is_terminated(&self) -> (r: bool)
        ensures
            r == spec_block_terminated(*self),
    {
        if self.instructions.len() == 0 {
            return false;
        }
        self.instructions[self.instructions.len() - 1].is_terminator()
    }

    /// Appends an instruction.
    pub fn push(&mut self, inst: Instruction)
        ensures
            final(self).label == old(self).label,
            final(self).instructions@ == old(self).instructions@.push(inst),
    {
        self.instructions.push(inst);
    }
}

/// A function: a signature and a list of basic blocks, the first of which
/// is always the entry block.
#[derive(Debug)]
pub struct Function {
    /// Function name.
    pub name: String,
    /// Generic type parameters.
    pub generic_params: Vec<GenericParam>,
    /// Parameters: name and type, in order.
    pub params: Vec<(String, IrType)>,
    /// Return type.
    pub return_type: IrType,
    /// Whether the function is async.
    pub is_async: bool,
    /// Basic blocks; never empty.
    pub blocks: Vec<BasicBlock>,
    /// Local variables and their types.
    pub locals: Vec<(String, IrType)>,
    /// Next temporary ID; advanced only through `new_temp`.
    pub next_temp: u32,
}

/// A function always has at least one block.
pub open spec fn fn_wf(f: Function) -> bool {
    f.blocks@.len() >= 1
}

/// Lowering leaves earlier blocks untouched: the block count never shrinks
/// and every block but the one under construction keeps its contents.
pub open spec fn extends_frozen(pre: Function, post: Function) -> bool {
    &&& post.blocks@.len() >= pre.blocks@.len()
    &&& forall|i: int| 0 <= i < pre.blocks@.len() - 1 ==> post.blocks@[i] == pre.blocks@[i]
}

/// Body lowering never touches a function's signature: its name, generic
/// parameters, parameters, return type and async flag stay as they were.
pub open spec fn same_signature(pre: Function, post: Function) -> bool {
    &&& post.name == pre.name
    &&& post.generic_params == pre.generic_params
    &&& post.params == pre.params
    &&& post.return_type == pre.return_type
    &&& post.is_async == pre.is_async
}

/// `extends_frozen` composes across successive lowering steps.
pub proof fn lemma_extends_frozen_trans(a: Function, b: Function, c: Function)
    requires
        extends_frozen(a, b),
        extends_frozen(b, c),
    ensures
        extends_frozen(a, c),
{
}

impl Function {
    /// The ID the next temporary will take.
    pub open spec fn spec_next_temp(&self) -> u32 {
        self.next_temp
    }

    pub fn new(name: &str, return_type: IrType, is_async: bool) -> (r: Self)
        ensures
            fn_wf(r),
            r.name@ == name@,
            r.return_type == return_type,
            r.is_async == is_async,
            r.blocks@.len() == 1,
            r.blocks@[0].label@ == "entry"@,
            r.blocks@[0].instructions@ =~= Seq::<Instruction>::empty(),
            r.params@ =~= Seq::<(String, IrType)>::empty(),
            r.locals@ =~= Seq::<(String, IrType)>::empty(),
            r.generic_params@ =~= Seq::<GenericParam>::empty(),
            r.spec_next_temp() == 0,
    {
        let mut blocks: Vec<BasicBlock> = Vec::new();
        blocks.push(BasicBlock::new("entry"));
        Function {
            name: name.to_owned(),
            generic_params: Vec::new(),
            params: Vec::new(),
            return_type,
            is_async,
            blocks,
            locals: Vec::new(),
            next_temp: 0,
        }
    }

    /// Sets the generic parameters.
    pub fn set_generic_params(&mut self, params: Vec<GenericParam>)
        ensures
            final(self).generic_params == params,
            final(self).blocks == old(self).blocks,
            final(self).params == old(self).params,
            final(self).name == old(self).name,
            final(self).return_type == old(self).return_type,
            final(self).is_async == old(self).is_async,
    {
        self.generic_params = params;
    }

    /// Adds one generic parameter.
    pub fn add_generic_param(&mut self, param: GenericParam)
        ensures
            final(self).generic_params@ == old(self).generic_params@.push(param),
            final(self).blocks == old(self).blocks,
            final(self).params == old(self).params,
            final(self).name == old(self).name,
            final(self).return_type == old(self).return_type,
            final(self).is_async == old(self).is_async,
    {
        self.generic_params.push(param);
    }

    /// Adds a parameter.
    pub fn add_param(&mut self, name: &str, ty: IrType)
        ensures
            final(self).params@.len() == old(self).params@.len() + 1,
            final(self).params@.drop_last() == old(self).params@,
            final(self).params@.last().0@ == name@,
            final(self).params@.last().1 == ty,
            final(self).blocks == old(self).blocks,
            final(self).locals == old(self).locals,
            final(self).spec_next_temp() == old(self).spec_next_temp(),
            final(self).name == old(self).name,
            final(self).return_type == old(self).return_type,
            final(self).is_async == old(self).is_async,
            final(self).generic_params == old(self).generic_params,
    {
        let ghost orig = self.params@;
        self.params.push((name.to_owned(), ty));
        proof {
            assert(self.params@.drop_last() =~= orig);
        }
    }

    /// Hands out a fresh temporary ID: the counter's current value, which
    /// then advances, so successive IDs are strictly increasing (until the
    /// counter saturates at the machine limit) and unique within the
    /// function.
    pub fn new_temp(&mut self) -> (r: u32)
        ensures
            r == old(self).spec_next_temp(),
            final(self).spec_next_temp() as int == (if old(self).spec_next_temp()
                < 0xffff_ffffu32 {
                old(self).spec_next_temp() + 1
            } else {
                old(self).spec_next_temp() as int
            }),
            final(self).blocks == old(self).blocks,
            final(self).params == old(self).params,
            final(self).locals == old(self).locals,
            final(self).name == old(self).name,
            final(self).return_type == old(self).return_type,
            final(self).is_async == old(self).is_async,
            final(self).generic_params == old(self).generic_params,
    {
        let id = self.next_temp;
        self.next_temp = if self.next_temp < 0xffff_ffffu32 {
            self.next_temp + 1
        } else {
            self.next_temp
        };
        id
    }

    /// Records a local variable's type, replacing any previous record.
    pub fn add_local(&mut self, name: String, ty: IrType)
        ensures
            final(self).blocks == old(self).blocks,
            final(self).params == old(self).params,
            final(self).spec_next_temp() == old(self).spec_next_temp(),
            final(self).name == old(self).name,
            final(self).return_type == old(self).return_type,
            final(self).is_async == old(self).is_async,
            final(self).generic_params == old(self).generic_params,
    {
        assoc_set(&mut self.locals, name, ty);
    }

    /// Finds a block by label.
    pub fn get_block(&self, label: &str) -> (r: Option<&BasicBlock>) {
        let mut i: usize = 0;
        while i < self.blocks.len()
            invariant
                i <= self.blocks@.len(),
            decreases self.blocks@.len() - i,
        {
            if string_is(&self.blocks[i].label, label) {
                return Some(&self.blocks[i]);
            }
            i = i + 1;
        }
        None
    }

    /// Finds a block by label, for mutation.
    pub fn get_block_mut(&mut self, label: &str) -> (r: Option<&mut BasicBlock>) {
        let mut i: usize = 0;
        while i < self.blocks.len()
            invariant
                i <= self.blocks@.len(),
            decreases self.blocks@.len() - i,
        {
            if string_is(&self.blocks[i].label, label) {
                return Some(&mut self.blocks[i]);
            }
            i = i + 1;
        }
        None
    }

    /// The block currently under construction: the last one.
    pub fn current_block(&self) -> (r: &BasicBlock)
        requires
            fn_wf(*self),
        ensures
            *r == self.blocks@.last(),
    {
        &self.blocks[self.blocks.len() - 1]
    }

    /// The block currently under construction, for direct mutation.
    pub fn current_block_mut(&mut self) -> (r: &mut BasicBlock)
        requires
            fn_wf(*old(self)),
        ensures
            *r == old(self).blocks@.last(),
            final(self).blocks@ == old(self).blocks@.update(
                old(self).blocks@.len() - 1,
                *final(r),
            ),
            final(self).params == old(self).params,
            final(self).locals == old(self).locals,
            final(self).name == old(self).name,
            final(self).return_type == old(self).return_type,
            final(self).is_async == old(self).is_async,
            final(self).generic_params == old(self).generic_params,
            final(self).spec_next_temp() == old(self).spec_next_temp(),
    {
        let n = self.blocks.len();
        &mut self.blocks[n - 1]
    }

    /// Opens a new block with the given label.
    pub fn new_block(&mut self, label: &str)
        ensures
            final(self).blocks@.len() == old(self).blocks@.len() + 1,
            final(self).blocks@.drop_last() == old(self).blocks@,
            final(self).blocks@.last().label@ == label@,
            final(self).blocks@.last().instructions@ =~= Seq::<Instruction>::empty(),
            extends_frozen(*old(self), *final(self)),
            final(self).params == old(self).params,
            final(self).locals == old(self).locals,
            final(self).name == old(self).name,
            final(self).return_type == old(self).return_type,
            final(self).is_async == old(self).is_async,
            final(self).generic_params == old(self).generic_params,
            final(self).spec_next_temp() == old(self).spec_next_temp(),
    {
        let ghost orig = self.blocks@;
        self.blocks.push(BasicBlock::new(label));
        proof {
            assert(self.blocks@.drop_last() =~= orig);
        }
    }

    /// Appends an instruction to the current block.
    pub fn emit(&mut self, inst: Instruction)
        requires
            fn_wf(*old(self)),
        ensures
            fn_wf(*final(self)),
            final(self).blocks@.len() == old(self).blocks@.len(),
            final(self).blocks@.last().label == old(self).blocks@.last().label,
            final(self).blocks@.last().instructions@ == old(
                self,
            ).blocks@.last().instructions@.push(inst),
            extends_frozen(*old(self), *final(self)),
            final(self).params == old(self).params,
            final(self).locals == old(self).locals,
            final(self).name == old(self).name,
            final(self).return_type == old(self).return_type,
            final(self).is_async == old(self).is_async,
            final(self).generic_params == old(self).generic_params,
            final(self).spec_next_temp() == old(self).spec_next_temp(),
    {
        let ghost orig = self.blocks@;
        let n = self.blocks.len();
        self.blocks[n - 1].push(inst);
        proof {
            assert(self.blocks@ =~= orig.update(
                n - 1,
                self.blocks@[n - 1],
            ));
        }
    }

    /// Appends an instruction to the current block and returns its
    /// destination as a value; an instruction without one yields void.
    pub fn emit_with_dest(&mut self, inst: Instruction) -> (r: Value)
        requires
            fn_wf(*old(self)),
        ensures
            fn_wf(*final(self)),
            final(self).blocks@.len() == old(self).blocks@.len(),
            final(self).blocks@.last().label == old(self).blocks@.last().label,
            final(self).blocks@.last().instructions@ == old(
                self,
            ).blocks@.last().instructions@.push(inst),
            extends_frozen(*old(self), *final(self)),
            final(self).params == old(self).params,
            final(self).locals == old(self).locals,
            final(self).name == old(self).name,
            final(self).return_type == old(self).return_type,
            final(self).is_async == old(self).is_async,
            final(self).generic_params == old(self).generic_params,
            final(self).spec_next_temp() == old(self).spec_next_temp(),
            r == (match spec_dest(inst) {
                Some(d) => Value::Temp(d),
                None => Value::Void,
            }),
    {
        let dest = inst.dest();
        self.emit(inst);
        match dest {
            Some(d) => Value::Temp(d),
            None => Value::Void,
        }
    }

    /// Renders the function as IR-style text.
    pub fn to_text(&self) -> (r: String) {
        let mut out = String::new();

        push_str(&mut out, "define ");
        if self.is_async {
            push_str(&mut out, "async ");
        }
        let rt = self.return_type.to_text();
        push_str(&mut out, rt.as_str());
        push_char(&mut out, '@');
        push_str(&mut out, self.name.as_str());
        push_char(&mut out, '(');
        let mut i: usize = 0;
        while i < self.params.len()
            invariant
                i <= self.params@.len(),
            decreases self.params@.len() - i,
        {
            if i > 0 {
                push_str(&mut out, ", ");
            }
            let t = self.params[i].1.to_text();
            push_str(&mut out, t.as_str());
            push_str(&mut out, " %");
            push_str(&mut out, self.params[i].0.as_str());
            i = i + 1;
        }
        push_str(&mut out, ") {\n");

        let mut li: usize = 0;
        while li < self.locals.len()
            invariant
                li <= self.locals@.len(),
            decreases self.locals@.len() - li,
        {
            push_str(&mut out, "  %");
            push_str(&mut out, self.locals[li].0.as_str());
            push_str(&mut out, " = alloca ");
            let t = self.locals[li].1.to_text();
            push_str(&mut out, t.as_str());
            push_char(&mut out, '\n');
            li = li + 1;
        }
        if self.locals.len() > 0 {
            push_char(&mut out, '\n');
        }

        let mut bi: usize = 0;
        while bi < self.blocks.len()
            invariant
                bi <= self.blocks@.len(),
            decreases self.blocks@.len() - bi,
        {
            push_str(&mut out, self.blocks[bi].label.as_str());
            push_str(&mut out, ":\n");
            let mut ii: usize = 0;
            while ii < self.blocks[bi].instructions.len()
                invariant
                    bi < self.blocks@.len(),
                    ii <= self.blocks@[bi as int].instructions@.len(),
                decreases self.blocks@[bi as int].instructions@.len() - ii,
            {
                push_str(&mut out, "  ");
                let t = self.blocks[bi].instructions[ii].to_text();
                push_str(&mut out, t.as_str());
                push_char(&mut out, '\n');
                ii = ii + 1;
            }
            bi = bi + 1;
        }

        push_str(&mut out, "}\n");
        out
    }
}

/// An HTTP route.
#[derive(Debug, Clone)]
pub struct HttpRoute {
    /// HTTP method (GET, POST, and so on).
    pub method: String,
    /// Route path, such as `/users/{id}`.
    pub path: String,
    /// Handler function name.
    pub handler: String,
    /// Middlewares to apply.
    pub middlewares: Vec<String>,
    /// Whether the handler is async.
    pub is_async: bool,
}

impl HttpRoute {
    pub fn new(method: &str, path: &str, handler: &str) -> (r: Self)
        ensures
            r.method@ == method@,
            r.path@ == path@,
            r.handler@ == handler@,
            !r.is_async,
    {
        HttpRoute {
            method: method.to_owned(),
            path: path.to_owned(),
            handler: handler.to_owned(),
            middlewares: Vec::new(),
            is_async: false,
        }
    }
}

/// A WebSocket route.
#[derive(Debug, Clone)]
pub struct WsRoute {
    /// Route path.
    pub path: String,
    /// Handler function name for connection.
    pub on_connect: Option<String>,
    /// Handler function name for messages.
    pub on_message: Option<String>,
    /// Handler function name for disconnection.
    pub on_disconnect: Option<String>,
    /// Middlewares to apply.
    pub middlewares: Vec<String>,
}

impl WsRoute {
    pub fn new(path: &str) -> (r: Self)
        ensures
            r.path@ == path@,
            r.on_connect is None && r.on_message is None && r.on_disconnect is None,
    {
        WsRoute {
            path: path.to_owned(),
            on_connect: None,
            on_message: None,
            on_disconnect: None,
            middlewares: Vec::new(),
        }
    }
}

/// Server configuration.
#[derive(Debug, Clone)]
pub struct ServerConfig {
    pub host: String,
    pub port: u16,
}

/// Database configuration.
#[derive(Debug, Clone)]
pub struct DatabaseConfig {
    pub name: String,
    /// The database kind: postgres, mysql or sqlite.
    pub db_type: String,
    pub url: String,
    pub pool_size: u32,
}

/// A global variable or constant.
#[derive(Debug, Clone)]
pub struct Global {
    pub name: String,
    pub ty: IrType,
    pub initializer: Option<Value>,
    pub is_const: bool,
}

impl Global {
    pub fn new(name: &str, ty: IrType) -> (r: Self)
        ensures
            r.name@ == name@,
            r.ty == ty,
            r.initializer is None,
            !r.is_const,
    {
        Global { name: name.to_owned(), ty, initializer: None, is_const: false }
    }

    pub fn with_init(self, value: Value) -> (r: Self)
        ensures
            r.initializer == Some(value),
            r.name == self.name && r.ty == self.ty && r.is_const == self.is_const,
    {
        Global { name: self.name, ty: self.ty, initializer: Some(value), is_const: self.is_const }
    }

    pub fn constant(self) -> (r: Self)
        ensures
            r.is_const,
            r.name == self.name && r.ty == self.ty && r.initializer == self.initializer,
    {
        Global { name: self.name, ty: self.ty, initializer: self.initializer, is_const: true }
    }
}

/// A trait definition in the IR.
#[derive(Debug, Clone)]
pub struct TraitDef {
    /// Trait name.
    pub name: String,
    /// Generic type parameters.
    pub generic_params: Vec<GenericParam>,
    /// Method signatures.
    pub methods: Vec<TraitMethodDef>,
}

impl TraitDef {
    pub fn new(name: &str) -> (r: Self)
        ensures
            r.name@ == name@,
            r.methods@ =~= Seq::<TraitMethodDef>::empty(),
    {
        TraitDef { name: name.to_owned(), generic_params: Vec::new(), methods: Vec::new() }
    }

    pub fn add_generic_param(&mut self, param: GenericParam)
        ensures
            final(self).generic_params@ == old(self).generic_params@.push(param),
            final(self).name == old(self).name && final(self).methods == old(self).methods,
    {
        self.generic_params.push(param);
    }

    pub fn add_method(&mut self, method: TraitMethodDef)
        ensures
            final(self).methods@ == old(self).methods@.push(method),
            final(self).name == old(self).name,
            final(self).generic_params == old(self).generic_params,
    {
        self.methods.push(method);
    }
}

/// A trait method signature.
#[derive(Debug, Clone)]
pub struct TraitMethodDef {
    /// Method name.
    pub name: String,
    /// Parameters: name and type.
    pub params: Vec<(String, IrType)>,
    /// Return type.
    pub return_type: IrType,
    /// Whether the method is async.
    pub is_async: bool,
    /// Receiver kind: 0 for `&self`, 1 for `&mut self`, 2 for `self`.
    pub receiver: u8,
}

impl TraitMethodDef {
    pub fn new(name: &str, return_type: IrType) -> (r: Self)
        ensures
            r.name@ == name@,
            r.return_type == return_type,
            !r.is_async,
            r.receiver == 0u8,
    {
        TraitMethodDef {
            name: name.to_owned(),
            params: Vec::new(),
            return_type,
            is_async: false,
            receiver: 0,
        }
    }

    pub fn add_param(&mut self, name: &str, ty: IrType)
        ensures
            final(self).params@.len() == old(self).params@.len() + 1,
            final(self).name == old(self).name,
    {
        self.params.push((name.to_owned(), ty));
    }

    pub fn set_async(self, is_async: bool) -> (r: Self)
        ensures
            r.is_async == is_async,
            r.name == self.name && r.params == self.params && r.return_type == self.return_type
                && r.receiver == self.receiver,
    {
        TraitMethodDef {
            name: self.name,
            params: self.params,
            return_type: self.return_type,
            is_async,
            receiver: self.receiver,
        }
    }

    pub fn set_receiver(self, receiver: u8) -> (r: Self)
        ensures
            r.receiver == receiver,
            r.name == self.name && r.params == self.params && r.return_type == self.return_type
                && r.is_async == self.is_async,
    {
        TraitMethodDef {
            name: self.name,
            params: self.params,
            return_type: self.return_type,
            is_async: self.is_async,
            receiver,
        }
    }
}

/// A trait implementation.
#[derive(Debug, Clone)]
pub struct ImplDef {
    /// The trait being implemented.
    pub trait_name: String,
    /// The type implementing the trait.
    pub target_type: std::string::String,
    /// Generic type parameters.
    pub generic_params: Vec<GenericParam>,
    /// The implemented method names.
    pub methods: Vec<String>,
}

impl ImplDef {
    pub fn new(trait_name: &str, target_type: &str) -> (r: Self)
        ensures
            r.trait_name@ == trait_name@,
            r.methods@ =~= Seq::<String>::empty(),
    {
        ImplDef {
            trait_name: trait_name.to_owned(),
            target_type: target_type.to_owned(),
            generic_params: Vec::new(),
            methods: Vec::new(),
        }
    }

    pub fn add_method(&mut self, name: String)
        ensures
            final(self).methods@ == old(self).methods@.push(name),
            final(self).trait_name == old(self).trait_name,
    {
        self.methods.push(name);
    }
}

/// A type alias.
#[derive(Debug, Clone)]
pub struct TypeAlias {
    /// Alias name.
    pub name: String,
    /// Target type.
    pub target: IrType,
}

impl TypeAlias {
    pub fn new(name: &str, target: IrType) -> (r: Self)
        ensures
            r.name@ == name@,
            r.target == target,
    {
        TypeAlias { name: name.to_owned(), target }
    }
}

/// Whether a sequence of strings holds pairwise distinct values.
pub open spec fn distinct_strings(t: Seq<String>) -> bool {
    forall|i: int, j: int| 0 <= i < j < t.len() ==> (#[trigger] t[i])@ != (#[trigger] t[j])@
}

/// The first index holding a given value, if any.
pub open spec fn find_string(t: Seq<String>, v: Seq<char>) -> Option<int>
    decreases t.len(),
{
    if t.len() == 0 {
        None
    } else if t[0]@ == v {
        Some(0int)
    } else {
        match find_string(t.drop_first(), v) {
            Some(i) => Some(i + 1),
            None => None,
        }
    }
}

/// When a value is absent, no entry holds it.
pub proof fn lemma_find_string_none(t: Seq<String>, v: Seq<char>)
    requires
        find_string(t, v) is None,
    ensures
        forall|i: int| 0 <= i < t.len() ==> (#[trigger] t[i])@ != v,
    decreases t.len(),
{
    if t.len() > 0 {
        lemma_find_string_none(t.drop_first(), v);
        assert forall|i: int| 0 <= i < t.len() implies (#[trigger] t[i])@ != v by {
            if i > 0 {
                assert(t.drop_first()[i - 1] == t[i]);
            }
        }
    }
}

/// Interning a value absent from a value-unique table keeps it value-unique.
pub proof fn lemma_intern_keeps_distinct(t: Seq<String>, s: String)
    requires
        distinct_strings(t),
        find_string(t, s@) is None,
    ensures
        distinct_strings(t.push(s)),
{
    lemma_find_string_none(t, s@);
    let t2 = t.push(s);
    assert forall|i: int, j: int|
        0 <= i < j < t2.len() implies (#[trigger] t2[i])@ != (#[trigger] t2[j])@ by {
        if j == t2.len() - 1 {
            assert(t2[i] == t[i]);
            assert(t2[j] == s);
        } else {
            assert(t2[i] == t[i]);
            assert(t2[j] == t[j]);
        }
    }
}

/// An IR module: one complete program.
#[derive(Debug)]
pub struct Module {
    /// Module name.
    pub name: String,
    /// Functions.
    pub functions: Vec<Function>,
    /// HTTP routes.
    pub routes: Vec<HttpRoute>,
    /// WebSocket routes.
    pub websocket_routes: Vec<WsRoute>,
    /// Server configuration, if declared.
    pub server: Option<ServerConfig>,
    /// Defined structs, by name.
    pub structs: Vec<(String, StructDef)>,
    /// Trait definitions, by name.
    pub traits: Vec<(String, TraitDef)>,
    /// Trait implementations.
    pub impls: Vec<ImplDef>,
    /// Type aliases, by name.
    pub type_aliases: Vec<(String, TypeAlias)>,
    /// Globals.
    pub globals: Vec<Global>,
    /// Constant string table: insertion-ordered and value-unique.
    pub string_table: Vec<String>,
    /// Database configurations.
    pub databases: Vec<DatabaseConfig>,
    /// Middleware names.
    pub middlewares: Vec<String>,
}

impl Module {
    pub fn new(name: &str) -> (r: Self)
        ensures
            r.name@ == name@,
            r.functions@ =~= Seq::<Function>::empty(),
            r.string_table@ =~= Seq::<String>::empty(),
            distinct_strings(r.string_table@),
            r.server is None,
    {
        Module {
            name: name.to_owned(),
            functions: Vec::new(),
            routes: Vec::new(),
            websocket_routes: Vec::new(),
            server: None,
            structs: Vec::new(),
            traits: Vec::new(),
            impls: Vec::new(),
            type_aliases: Vec::new(),
            globals: Vec::new(),
            string_table: Vec::new(),
            databases: Vec::new(),
            middlewares: Vec::new(),
        }
    }

    /// Interns a string in the table and returns its index. The table never
    /// holds two entries with the same value: an existing value keeps its
    /// index, and only new values are appended.
    pub fn add_string(&mut self, s: String) -> (idx: usize)
        ensures
            match find_string(old(self).string_table@, s@) {
                Some(i) => idx == i && final(self).string_table@ == old(self).string_table@,
                None => {
                    &&& final(self).string_table@ == old(self).string_table@.push(s)
                    &&& idx == old(self).string_table@.len()
                },
            },
            idx < final(self).string_table@.len(),
            final(self).string_table@[idx as int]@ == s@,
            distinct_strings(old(self).string_table@) ==> distinct_strings(
                final(self).string_table@,
            ),
            final(self).functions == old(self).functions,
            final(self).structs == old(self).structs,
            final(self).routes == old(self).routes,
            final(self).server == old(self).server,
    {
        let ghost orig = self.string_table@;
        let n = self.string_table.len();
        let mut i: usize = 0;
        proof {
            assert(orig.subrange(0, n as int) =~= orig);
        }
        while i < n
            invariant
                n == self.string_table@.len(),
                self.string_table@ == orig,
                i <= n,
                find_string(orig, s@) == match find_string(orig.subrange(i as int, n as int), s@) {
                    Some(k) => Some(k + i),
                    None => None,
                },
                forall|l: int| 0 <= l < i ==> (#[trigger] orig[l])@ != s@,
            decreases n - i,
        {
            proof {
                assert(orig.subrange(i as int, n as int)[0] == orig[i as int]);
                assert(orig.subrange(i as int, n as int).drop_first() =~= orig.subrange(
                    i + 1,
                    n as int,
                ));
            }
            if string_is(&self.string_table[i], s.as_str()) {
                proof {
                    assert(find_string(orig.subrange(i as int, n as int), s@) == Some(0int));
                }
                return i;
            }
            i = i + 1;
        }
        proof {
            assert(orig.subrange(n as int, n as int) =~= Seq::<String>::empty());
            assert(find_string(orig, s@) is None);
            if distinct_strings(orig) {
                lemma_intern_keeps_distinct(orig, s);
            }
        }
        let idx = self.string_table.len();
        self.string_table.push(s);
        idx
    }

    /// Adds a function.
    pub fn add_function(&mut self, func: Function)
        ensures
            final(self).functions@ == old(self).functions@.push(func),
            final(self).string_table == old(self).string_table,
            final(self).structs == old(self).structs,
            final(self).routes == old(self).routes,
            final(self).server == old(self).server,
    {
        self.functions.push(func);
    }

    /// Adds an HTTP route.
    pub fn add_route(&mut self, route: HttpRoute)
        ensures
            final(self).routes@ == old(self).routes@.push(route),
            final(self).functions == old(self).functions,
            final(self).string_table == old(self).string_table,
            final(self).server == old(self).server,
    {
        self.routes.push(route);
    }

    /// Adds a WebSocket route.
    pub fn add_websocket_route(&mut self, route: WsRoute)
        ensures
            final(self).websocket_routes@ == old(self).websocket_routes@.push(route),
            final(self).functions == old(self).functions,
            final(self).string_table == old(self).string_table,
            final(self).server == old(self).server,
            final(self).routes == old(self).routes,
    {
        self.websocket_routes.push(route);
    }

    /// Registers a struct under its name.
    pub fn add_struct(&mut self, def: StructDef)
        ensures
            final(self).functions == old(self).functions,
            final(self).string_table == old(self).string_table,
            final(self).server == old(self).server,
            final(self).routes == old(self).routes,
    {
        let name = def.name.clone();
        assoc_set(&mut self.structs, name, def);
    }

    /// Finds a struct by name.
    pub fn get_struct(&self, name: &str) -> (r: Option<&StructDef>)
        ensures
            match r {
                Some(def) => assoc_find(self.structs@, name@) == Some(*def),
                None => assoc_find(self.structs@, name@) is None,
            },
    {
        assoc_get(&self.structs, name)
    }

    /// Registers a trait definition.
    pub fn add_trait(&mut self, def: TraitDef)
        ensures
            final(self).functions == old(self).functions,
            final(self).string_table == old(self).string_table,
            final(self).server == old(self).server,
            final(self).routes == old(self).routes,
    {
        let name = def.name.clone();
        assoc_set(&mut self.traits, name, def);
    }

    /// Finds a trait by name.
    pub fn get_trait(&self, name: &str) -> (r: Option<&TraitDef>) {
        assoc_get(&self.traits, name)
    }

    /// Adds a trait implementation.
    pub fn add_impl(&mut self, impl_def: ImplDef)
        ensures
            final(self).impls@ == old(self).impls@.push(impl_def),
            final(self).functions == old(self).functions,
            final(self).string_table == old(self).string_table,
            final(self).server == old(self).server,
            final(self).routes == old(self).routes,
    {
        self.impls.push(impl_def);
    }

    /// Registers a type alias.
    pub fn add_type_alias(&mut self, alias: TypeAlias)
        ensures
            final(self).functions == old(self).functions,
            final(self).string_table == old(self).string_table,
            final(self).server == old(self).server,
            final(self).routes == old(self).routes,
    {
        let name = alias.name.clone();
        assoc_set(&mut self.type_aliases, name, alias);
    }

    /// Finds a type alias by name.
    pub fn get_type_alias(&self, name: &str) -> (r: Option<&TypeAlias>) {
        assoc_get(&self.type_aliases, name)
    }

    /// Finds the first function with the given name.
    pub fn get_function(&self, name: &str) -> (r: Option<&Function>)
        ensures
            match r {
                Some(f) => exists|i: int|
                    {
                        &&& 0 <= i < self.functions@.len()
                        &&& #[trigger] self.functions@[i] == *f
                        &&& f.name@ == name@
                        &&& forall|j: int| 0 <= j < i ==> self.functions@[j].name@ != name@
                    },
                None => forall|i: int|
                    0 <= i < self.functions@.len() ==> (#[trigger] self.functions@[i]).name@
                        != name@,
            },
    {
        let mut i: usize = 0;
        while i < self.functions.len()
            invariant
                i <= self.functions@.len(),
                forall|j: int| 0 <= j < i ==> self.functions@[j].name@ != name@,
            decreases self.functions@.len() - i,
        {
            if string_is(&self.functions[i].name, name) {
                return Some(&self.functions[i]);
            }
            i = i + 1;
        }
        None
    }

    /// Finds a function by name, for mutation.
    pub fn get_function_mut(&mut self, name: &str) -> (r: Option<&mut Function>) {
        let mut i: usize = 0;
        while i < self.functions.len()
            invariant
                i <= self.functions@.len(),
            decreases self.functions@.len() - i,
        {
            if string_is(&self.functions[i].name, name) {
                return Some(&mut self.functions[i]);
            }
            i = i + 1;
        }
        None
    }

    /// Renders the module as IR-style text.
    pub fn to_text(&self) -> (r: String) {
        let mut out = String::new();

        push_str(&mut out, "; Module: ");
        push_str(&mut out, self.name.as_str());
        push_str(&mut out, "\n\n");

        if self.string_table.len() > 0 {
            push_str(&mut out, "; String table\n");
            let mut i: usize = 0;
            while i < self.string_table.len()
                invariant
                    i <= self.string_table@.len(),
                decreases self.string_table@.len() - i,
            {
                push_str(&mut out, "@str");
                let n = u64_to_dec(i as u64);
                push_str(&mut out, n.as_str());
                push_str(&mut out, " = \"");
                let escaped = escape_text(self.string_table[i].as_str());
                push_str(&mut out, escaped.as_str());
                push_str(&mut out, "\"\n");
                i = i + 1;
            }
            push_char(&mut out, '\n');
        }

        let mut si: usize = 0;
        while si < self.structs.len()
            invariant
                si <= self.structs@.len(),
            decreases self.structs@.len() - si,
        {
            push_str(&mut out, "; Struct ");
            push_str(&mut out, self.structs[si].0.as_str());
            push_char(&mut out, '\n');
            push_char(&mut out, '%');
            push_str(&mut out, self.structs[si].0.as_str());
            push_str(&mut out, " = type { ");
            let mut fi: usize = 0;
            while fi < self.structs[si].1.fields.len()
                invariant
                    si < self.structs@.len(),
                    fi <= self.structs@[si as int].1.fields@.len(),
                decreases self.structs@[si as int].1.fields@.len() - fi,
            {
                if fi > 0 {
                    push_str(&mut out, ", ");
                }
                let t = self.structs[si].1.fields[fi].1.to_text();
                push_str(&mut out, t.as_str());
                push_char(&mut out, ' ');
                push_str(&mut out, self.structs[si].1.fields[fi].0.as_str());
                fi = fi + 1;
            }
            push_str(&mut out, " }\n");
            si = si + 1;
        }
        if self.structs.len() > 0 {
            push_char(&mut out, '\n');
        }

        match &self.server {
            Some(server) => {
                push_str(&mut out, "; Server: ");
                push_str(&mut out, server.host.as_str());
                push_char(&mut out, ':');
                let p = u64_to_dec(server.port as u64);
                push_str(&mut out, p.as_str());
                push_str(&mut out, "\n\n");
            },
            None => {},
        }

        if self.routes.len() > 0 {
            push_str(&mut out, "; HTTP Routes\n");
            let mut ri: usize = 0;
            while ri < self.routes.len()
                invariant
                    ri <= self.routes@.len(),
                decreases self.routes@.len() - ri,
            {
                push_str(&mut out, ";   ");
                push_str(&mut out, self.routes[ri].method.as_str());
                push_char(&mut out, ' ');
                push_str(&mut out, self.routes[ri].path.as_str());
                push_str(&mut out, " -> @");
                push_str(&mut out, self.routes[ri].handler.as_str());
                push_char(&mut out, '\n');
                ri = ri + 1;
            }
            push_char(&mut out, '\n');
        }

        let mut funci: usize = 0;
        while funci < self.functions.len()
            invariant
                funci <= self.functions@.len(),
            decreases self.functions@.len() - funci,
        {
            let t = self.functions[funci].to_text();
            push_str(&mut out, t.as_str());
            push_char(&mut out, '\n');
            funci = funci + 1;
        }

        out
    }
}

/// Escapes backslashes, quotes and control characters for display.
fn escape_text(s: &str) -> (r: String) {
    let chars = crate::text::str_chars(s);
    let mut out: Vec<char> = Vec::new();
    let mut i: usize = 0;
    while i < chars.len()
        invariant
            i <= chars@.len(),
        decreases chars@.len() - i,
    {
        let c = chars[i];
        if c == '\\' {
            out.push('\\');
            out.push('\\');
        } else if c == '"' {
            out.push('\\');
            out.push('"');
        } else if c == '\n' {
            out.push('\\');
            out.push('n');
        } else if c == '\r' {
            out.push('\\');
            out.push('r');
        } else if c == '\t' {
            out.push('\\');
            out.push('t');
        } else {
            out.push(c);
        }
        i = i + 1;
    }
    crate::text::chars_to_string(&out)
}

} // verus!
