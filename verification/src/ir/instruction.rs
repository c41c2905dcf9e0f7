//! IR instructions and values, in a simplified single-assignment form.

use vstd::prelude::*;

use crate::ir::types::IrType;
use crate::text::{i64_to_dec, push_char, push_str, u64_to_dec};

verus! {

/// An IR value: an immutable reference to a constant, local, parameter,
/// global or temporary.
#[derive(Debug, PartialEq)]
pub enum Value {
    /// Integer constant.
    ConstInt(i64),
    /// Float constant, kept as its source text.
    ConstFloat(String),
    /// Boolean constant.
    ConstBool(bool),
    /// String constant: an index into the module string table.
    ConstString(usize),
    /// Local variable, by name.
    Local(String),
    /// Function parameter, by position.
    Param(usize),
    /// Global, by name.
    Global(String),
    /// Result of a previous instruction.
    Temp(u32),
    /// Void: the absence of a value.
    Void,
}

impl Clone for Value {
    fn clone(&self) -> (r: Self)
        ensures
            r == *self,
    {
        match self {
            Value::ConstInt(v) => Value::ConstInt(*v),
            Value::ConstFloat(t) => Value::ConstFloat(t.clone()),
            Value::ConstBool(v) => Value::ConstBool(*v),
            Value::ConstString(idx) => Value::ConstString(*idx),
            Value::Local(name) => Value::Local(name.clone()),
            Value::Param(idx) => Value::Param(*idx),
            Value::Global(name) => Value::Global(name.clone()),
            Value::Temp(id) => Value::Temp(*id),
            Value::Void => Value::Void,
        }
    }
}

impl Value {
    pub fn const_int(v: i64) -> (r: Self)
        ensures
            r == Value::ConstInt(v),
    {
        Value::ConstInt(v)
    }

    /// A float constant from its source text.
    pub fn const_float(text: String) -> (r: Self)
        ensures
            r == Value::ConstFloat(text),
    {
        Value::ConstFloat(text)
    }

    pub fn const_bool(v: bool) -> (r: Self)
        ensures
            r == Value::ConstBool(v),
    {
        Value::ConstBool(v)
    }

    pub fn local(name: String) -> (r: Self)
        ensures
            r == Value::Local(name),
    {
        Value::Local(name)
    }

    pub fn temp(id: u32) -> (r: Self)
        ensures
            r == Value::Temp(id),
    {
        Value::Temp(id)
    }

    /// Renders the value as IR-style text.
    pub fn to_text(&self) -> (r: String) {
        match self {
            Value::ConstInt(v) => i64_to_dec(*v),
            Value::ConstFloat(t) => t.clone(),
            Value::ConstBool(v) => if *v {
                "true".to_owned()
            } else {
                "false".to_owned()
            },
            Value::ConstString(idx) => {
                let mut s = "str#".to_owned();
                let n = u64_to_dec(*idx as u64);
                push_str(&mut s, n.as_str());
                s
            },
            Value::Local(name) => {
                let mut s = "%".to_owned();
                push_str(&mut s, name.as_str());
                s
            },
            Value::Param(idx) => {
                let mut s = "%arg".to_owned();
                let n = u64_to_dec(*idx as u64);
                push_str(&mut s, n.as_str());
                s
            },
            Value::Global(name) => {
                let mut s = "@".to_owned();
                push_str(&mut s, name.as_str());
                s
            },
            Value::Temp(id) => {
                let mut s = "%t".to_owned();
                let n = u64_to_dec(*id as u64);
                push_str(&mut s, n.as_str());
                s
            },
            Value::Void => "void".to_owned(),
        }
    }
}

/// Binary operations.
#[derive(Debug, Clone, Copy, PartialEq, Eq, Structural)]
pub enum BinaryOp {
    Add,
    Sub,
    Mul,
    Div,
    Mod,
    And,
    Or,
    Xor,
    Shl,
    Shr,
}

impl BinaryOp {
    /// The operation's IR mnemonic.
    pub fn to_text(&self) -> (r: String) {
        match self {
            BinaryOp::Add => "add".to_owned(),
            BinaryOp::Sub => "sub".to_owned(),
            BinaryOp::Mul => "mul".to_owned(),
            BinaryOp::Div => "div".to_owned(),
            BinaryOp::Mod => "mod".to_owned(),
            BinaryOp::And => "and".to_owned(),
            BinaryOp::Or => "or".to_owned(),
            BinaryOp::Xor => "xor".to_owned(),
            BinaryOp::Shl => "shl".to_owned(),
            BinaryOp::Shr => "shr".to_owned(),
        }
    }
}

/// Comparison operations.
#[derive(Debug, Clone, Copy, PartialEq, Eq, Structural)]
pub enum CompareOp {
    Eq,
    Ne,
    Lt,
    Le,
    Gt,
    Ge,
}

impl CompareOp {
    /// The comparison's IR mnemonic.
    pub fn to_text(&self) -> (r: String) {
        match self {
            CompareOp::Eq => "eq".to_owned(),
            CompareOp::Ne => "ne".to_owned(),
            CompareOp::Lt => "lt".to_owned(),
            CompareOp::Le => "le".to_owned(),
            CompareOp::Gt => "gt".to_owned(),
            CompareOp::Ge => "ge".to_owned(),
        }
    }
}

/// An IR instruction.
#[derive(Debug)]
pub enum Instruction {
    /// Allocates stack space for a local: `%name = alloca type`.
    Alloca { dest: String, ty: IrType },
    /// Stores a value through a pointer: `store value, ptr`.
    Store { value: Value, ptr: Value },
    /// Loads a value from a pointer: `%dest = load ptr`.
    Load { dest: u32, ptr: Value, ty: IrType },
    /// Binary operation: `%dest = op left, right`.
    Binary { dest: u32, op: BinaryOp, left: Value, right: Value },
    /// Comparison: `%dest = cmp op left, right`.
    Compare { dest: u32, op: CompareOp, left: Value, right: Value },
    /// Logical negation.
    Not { dest: u32, value: Value },
    /// Arithmetic negation.
    Neg { dest: u32, value: Value },
    /// Function call: `%dest = call @func(args...)`.
    Call { dest: Option<u32>, func: String, args: Vec<Value> },
    /// Return.
    Return(Value),
    /// Unconditional branch.
    Branch { target: String },
    /// Conditional branch.
    CondBranch { cond: Value, then_label: String, else_label: String },
    /// Phi node.
    Phi { dest: u32, incoming: Vec<(Value, String)> },
    /// Struct field read.
    GetField { dest: u32, ptr: Value, struct_name: String, field_index: usize, field_name: String },
    /// Struct field write.
    SetField { ptr: Value, struct_name: String, field_index: usize, field_name: String, value: Value },
    /// Array element read.
    GetElement { dest: u32, ptr: Value, index: Value },
    /// Array element write.
    SetElement { ptr: Value, index: Value, value: Value },
    /// Await of a future.
    Await { dest: u32, future: Value },
    /// Creates a new struct.
    NewStruct { dest: u32, struct_name: String },
    /// Creates a new array.
    NewArray { dest: u32, elem_type: IrType, size: Value },
    /// Type conversion.
    Cast { dest: u32, value: Value, to_type: IrType },
    /// Comment / debug information.
    Comment(String),
}

/// Whether an instruction ends control flow in a block.
pub open spec fn spec_is_terminator(i: Instruction) -> bool {
    i is Return || i is Branch || i is CondBranch
}

impl Instruction {
    /// The instruction's destination temporary, if it has one.
    pub fn dest(&self) -> (r: Option<u32>)
        ensures
            match r {
                Some(d) => spec_dest(*self) == Some(d),
                None => spec_dest(*self) is None,
            },
    {
        match self {
            Instruction::Load { dest, .. } => Some(*dest),
            Instruction::Binary { dest, .. } => Some(*dest),
            Instruction::Compare { dest, .. } => Some(*dest),
            Instruction::Not { dest, .. } => Some(*dest),
            Instruction::Neg { dest, .. } => Some(*dest),
            Instruction::Call { dest, .. } => *dest,
            Instruction::Phi { dest, .. } => Some(*dest),
            Instruction::GetField { dest, .. } => Some(*dest),
            Instruction::GetElement { dest, .. } => Some(*dest),
            Instruction::Await { dest, .. } => Some(*dest),
            Instruction::NewStruct { dest, .. } => Some(*dest),
            Instruction::NewArray { dest, .. } => Some(*dest),
            Instruction::Cast { dest, .. } => Some(*dest),
            _ => None,
        }
    }

    /// Checks whether the instruction is a block terminator.
    pub fn is_terminator(&self) -> (r: bool)
        ensures
            r == spec_is_terminator(*self),
    {
        matches!(
            self,
            Instruction::Return(_) | Instruction::Branch { .. } | Instruction::CondBranch { .. }
        )
    }

    /// Renders the instruction as IR-style text.
    pub fn to_text(&self) -> (r: String) {
        match self {
            Instruction::Alloca { dest, ty } => {
                let mut s = "%".to_owned();
                push_str(&mut s, dest.as_str());
                push_str(&mut s, " = alloca ");
                let t = ty.to_text();
                push_str(&mut s, t.as_str());
                s
            },
            Instruction::Store { value, ptr } => {
                let mut s = "store ".to_owned();
                let v = value.to_text();
                push_str(&mut s, v.as_str());
                push_str(&mut s, ", ");
                let p = ptr.to_text();
                push_str(&mut s, p.as_str());
                s
            },
            Instruction::Load { dest, ptr, ty } => {
                let mut s = "%t".to_owned();
                let d = u64_to_dec(*dest as u64);
                push_str(&mut s, d.as_str());
                push_str(&mut s, " = load ");
                let t = ty.to_text();
                push_str(&mut s, t.as_str());
                push_char(&mut s, ' ');
                let p = ptr.to_text();
                push_str(&mut s, p.as_str());
                s
            },
            Instruction::Binary { dest, op, left, right } => {
                let mut s = "%t".to_owned();
                let d = u64_to_dec(*dest as u64);
                push_str(&mut s, d.as_str());
                push_str(&mut s, " = ");
                let o = op.to_text();
                push_str(&mut s, o.as_str());
                push_char(&mut s, ' ');
                let l = left.to_text();
                push_str(&mut s, l.as_str());
                push_str(&mut s, ", ");
                let rr = right.to_text();
                push_str(&mut s, rr.as_str());
                s
            },
            Instruction::Compare { dest, op, left, right } => {
                let mut s = "%t".to_owned();
                let d = u64_to_dec(*dest as u64);
                push_str(&mut s, d.as_str());
                push_str(&mut s, " = cmp ");
                let o = op.to_text();
                push_str(&mut s, o.as_str());
                push_char(&mut s, ' ');
                let l = left.to_text();
                push_str(&mut s, l.as_str());
                push_str(&mut s, ", ");
                let rr = right.to_text();
                push_str(&mut s, rr.as_str());
                s
            },
            Instruction::Not { dest, value } => {
                let mut s = "%t".to_owned();
                let d = u64_to_dec(*dest as u64);
                push_str(&mut s, d.as_str());
                push_str(&mut s, " = not ");
                let v = value.to_text();
                push_str(&mut s, v.as_str());
                s
            },
            Instruction::Neg { dest, value } => {
                let mut s = "%t".to_owned();
                let d = u64_to_dec(*dest as u64);
                push_str(&mut s, d.as_str());
                push_str(&mut s, " = neg ");
                let v = value.to_text();
                push_str(&mut s, v.as_str());
                s
            },
            Instruction::Call { dest, func, args } => {
                let mut s = String::new();
                match dest {
                    Some(d) => {
                        push_str(&mut s, "%t");
                        let dd = u64_to_dec(*d as u64);
                        push_str(&mut s, dd.as_str());
                        push_str(&mut s, " = ");
                    },
                    None => {},
                }
                push_str(&mut s, "call @");
                push_str(&mut s, func.as_str());
                push_char(&mut s, '(');
                let mut i: usize = 0;
                while i < args.len()
                    invariant
                        i <= args@.len(),
                    decreases args@.len() - i,
                {
                    if i > 0 {
                        push_str(&mut s, ", ");
                    }
                    let a = args[i].to_text();
                    push_str(&mut s, a.as_str());
                    i = i + 1;
                }
                push_char(&mut s, ')');
                s
            },
            Instruction::Return(value) => {
                let mut s = "ret ".to_owned();
                let v = value.to_text();
                push_str(&mut s, v.as_str());
                s
            },
            Instruction::Branch { target } => {
                let mut s = "br ".to_owned();
                push_str(&mut s, target.as_str());
                s
            },
            Instruction::CondBranch { cond, then_label, else_label } => {
                let mut s = "br ".to_owned();
                let c = cond.to_text();
                push_str(&mut s, c.as_str());
                push_str(&mut s, ", ");
                push_str(&mut s, then_label.as_str());
                push_str(&mut s, ", ");
                push_str(&mut s, else_label.as_str());
                s
            },
            Instruction::Phi { dest, incoming } => {
                let mut s = "%t".to_owned();
                let d = u64_to_dec(*dest as u64);
                push_str(&mut s, d.as_str());
                push_str(&mut s, " = phi ");
                let mut i: usize = 0;
                while i < incoming.len()
                    invariant
                        i <= incoming@.len(),
                    decreases incoming@.len() - i,
                {
                    if i > 0 {
                        push_str(&mut s, ", ");
                    }
                    push_char(&mut s, '[');
                    let v = incoming[i].0.to_text();
                    push_str(&mut s, v.as_str());
                    push_str(&mut s, ", ");
                    push_str(&mut s, incoming[i].1.as_str());
                    push_char(&mut s, ']');
                    i = i + 1;
                }
                s
            },
            Instruction::GetField { dest, ptr, struct_name, field_index, field_name } => {
                let mut s = "%t".to_owned();
                let d = u64_to_dec(*dest as u64);
                push_str(&mut s, d.as_str());
                push_str(&mut s, " = getfield ");
                let p = ptr.to_text();
                push_str(&mut s, p.as_str());
                push_str(&mut s, " %");
                push_str(&mut s, struct_name.as_str());
                push_char(&mut s, '.');
                let fi = u64_to_dec(*field_index as u64);
                push_str(&mut s, fi.as_str());
                push_str(&mut s, " (");
                push_str(&mut s, field_name.as_str());
                push_char(&mut s, ')');
                s
            },
            Instruction::SetField { ptr, struct_name, field_index, field_name, value } => {
                let mut s = "setfield ".to_owned();
                let p = ptr.to_text();
                push_str(&mut s, p.as_str());
                push_str(&mut s, " %");
                push_str(&mut s, struct_name.as_str());
                push_char(&mut s, '.');
                let fi = u64_to_dec(*field_index as u64);
                push_str(&mut s, fi.as_str());
                push_str(&mut s, " (");
                push_str(&mut s, field_name.as_str());
                push_str(&mut s, "), ");
                let v = value.to_text();
                push_str(&mut s, v.as_str());
                s
            },
            Instruction::GetElement { dest, ptr, index } => {
                let mut s = "%t".to_owned();
                let d = u64_to_dec(*dest as u64);
                push_str(&mut s, d.as_str());
                push_str(&mut s, " = getelem ");
                let p = ptr.to_text();
                push_str(&mut s, p.as_str());
                push_str(&mut s, ", ");
                let ix = index.to_text();
                push_str(&mut s, ix.as_str());
                s
            },
            Instruction::SetElement { ptr, index, value } => {
                let mut s = "setelem ".to_owned();
                let p = ptr.to_text();
                push_str(&mut s, p.as_str());
                push_str(&mut s, ", ");
                let ix = index.to_text();
                push_str(&mut s, ix.as_str());
                push_str(&mut s, ", ");
                let v = value.to_text();
                push_str(&mut s, v.as_str());
                s
            },
            Instruction::Await { dest, future } => {
                let mut s = "%t".to_owned();
                let d = u64_to_dec(*dest as u64);
                push_str(&mut s, d.as_str());
                push_str(&mut s, " = await ");
                let v = future.to_text();
                push_str(&mut s, v.as_str());
                s
            },
            Instruction::NewStruct { dest, struct_name } => {
                let mut s = "%t".to_owned();
                let d = u64_to_dec(*dest as u64);
                push_str(&mut s, d.as_str());
                push_str(&mut s, " = newstruct %");
                push_str(&mut s, struct_name.as_str());
                s
            },
            Instruction::NewArray { dest, elem_type, size } => {
                let mut s = "%t".to_owned();
                let d = u64_to_dec(*dest as u64);
                push_str(&mut s, d.as_str());
                push_str(&mut s, " = newarray ");
                let t = elem_type.to_text();
                push_str(&mut s, t.as_str());
                push_str(&mut s, ", ");
                let v = size.to_text();
                push_str(&mut s, v.as_str());
                s
            },
            Instruction::Cast { dest, value, to_type } => {
                let mut s = "%t".to_owned();
                let d = u64_to_dec(*dest as u64);
                push_str(&mut s, d.as_str());
                push_str(&mut s, " = cast ");
                let v = value.to_text();
                push_str(&mut s, v.as_str());
                push_str(&mut s, " to ");
                let t = to_type.to_text();
                push_str(&mut s, t.as_str());
                s
            },
            Instruction::Comment(text) => {
                let mut s = "; ".to_owned();
                push_str(&mut s, text.as_str());
                s
            },
        }
    }
}

/// The destination temporary of an instruction, if any.
pub open spec fn spec_dest(i: Instruction) -> Option<u32> {
    match i {
        Instruction::Load { dest, .. } => Some(dest),
        Instruction::Binary { dest, .. } => Some(dest),
        Instruction::Compare { dest, .. } => Some(dest),
        Instruction::Not { dest, .. } => Some(dest),
        Instruction::Neg { dest, .. } => Some(dest),
        Instruction::Call { dest, .. } => dest,
        Instruction::Phi { dest, .. } => Some(dest),
        Instruction::GetField { dest, .. } => Some(dest),
        Instruction::GetElement { dest, .. } => Some(dest),
        Instruction::Await { dest, .. } => Some(dest),
        Instruction::NewStruct { dest, .. } => Some(dest),
        Instruction::NewArray { dest, .. } => Some(dest),
        Instruction::Cast { dest, .. } => Some(dest),
        _ => None,
    }
}

} // verus!
