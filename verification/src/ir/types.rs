//! IR types: lower level than the surface type model.

use vstd::prelude::*;

use crate::text::{push_char, push_str, u64_to_dec};

verus! {

broadcast use
    vstd::seq::axiom_seq_index_decreases,
    vstd::std_specs::vec::axiom_vec_index_decreases,
    vstd::std_specs::vec::axiom_vec_decreases_to_view;

/// IR types.
#[derive(Debug, PartialEq)]
pub enum IrType {
    /// Void / unit.
    Void,
    /// 64-bit integer.
    I64,
    /// 64-bit float.
    F64,
    /// Boolean.
    Bool,
    /// Pointer to string data.
    String,
    /// Pointer to a type.
    Ptr(Box<IrType>),
    /// Fixed-size array.
    Array(Box<IrType>, usize),
    /// Struct by name.
    Struct(std::string::String),
    /// Function.
    Function { params: Vec<IrType>, ret: Box<IrType> },
    /// Future (for async); a pointer to a state machine.
    Future(Box<IrType>),
    /// Tuple.
    Tuple(Vec<IrType>),
    /// Range (for iterating).
    Range(Box<IrType>),
}

/// Structural depth of an IR type; the measure for recursion.
pub open spec fn ir_depth(t: IrType) -> nat
    decreases t,
{
    match t {
        IrType::Ptr(inner) => 1 + ir_depth(*inner),
        IrType::Array(inner, _) => 1 + ir_depth(*inner),
        IrType::Function { params, ret } => {
            let d = irs_depth(params@);
            let r = ir_depth(*ret);
            1 + if d > r { d } else { r }
        },
        IrType::Future(inner) => 1 + ir_depth(*inner),
        IrType::Tuple(elems) => 1 + irs_depth(elems@),
        IrType::Range(inner) => 1 + ir_depth(*inner),
        _ => 1,
    }
}

/// The largest depth among a sequence of IR types.
pub open spec fn irs_depth(s: Seq<IrType>) -> nat
    decreases s,
{
    if s.len() == 0 {
        0
    } else {
        let d0 = ir_depth(s[0]);
        let dr = irs_depth(s.drop_first());
        if d0 > dr {
            d0
        } else {
            dr
        }
    }
}

/// Every element of a sequence is at most as deep as the sequence.
pub proof fn lemma_irs_depth(s: Seq<IrType>, i: int)
    requires
        0 <= i < s.len(),
    ensures
        ir_depth(s[i]) <= irs_depth(s),
    decreases s.len(),
{
    if i > 0 {
        lemma_irs_depth(s.drop_first(), i - 1);
        assert(s.drop_first()[i - 1] == s[i]);
    }
}

/// The tag a syntactic type contributes to a mangled instantiation name.
pub open spec fn spec_type_tag(t: crate::ast::Type) -> Seq<char> {
    match t {
        crate::ast::Type::Int => "Int"@,
        crate::ast::Type::Float => "Float"@,
        crate::ast::Type::Bool => "Bool"@,
        crate::ast::Type::String => "String"@,
        crate::ast::Type::Named(name) => name@,
        crate::ast::Type::Generic { name, args: _ } => name@,
        _ => "T"@,
    }
}

/// The mangled name of a result or option instantiation: the head name
/// followed by an underscore-separated tag per argument.
pub open spec fn spec_mangle(prefix: Seq<char>, args: Seq<crate::ast::Type>) -> Seq<char>
    decreases args.len(),
{
    if args.len() == 0 {
        prefix
    } else {
        spec_mangle(prefix + seq!['_'] + spec_type_tag(args[0]), args.drop_first())
    }
}

/// How a syntactic type maps to its IR type: primitives map directly,
/// named types become structs, references and arrays become pointers,
/// tuples and function types map pointwise, and result and option
/// instantiations become tagged structs with a mangled name.
pub open spec fn ir_of_ast(t: crate::ast::Type, r: IrType) -> bool
    decreases crate::ast::ast_type_depth(t),
    via ir_of_ast_decreases
{
    match t {
        crate::ast::Type::Int => r is I64,
        crate::ast::Type::Float => r is F64,
        crate::ast::Type::Bool => r is Bool,
        crate::ast::Type::String => r is String,
        crate::ast::Type::Named(name) => r matches IrType::Struct(m) && m@ == name@,
        crate::ast::Type::Generic { name, args } => r matches IrType::Struct(m) && m@ == (
        if name@ == "Result"@ || name@ == "Option"@ {
            spec_mangle(name@, args@)
        } else {
            name@
        }),
        crate::ast::Type::Ref(inner) => r matches IrType::Ptr(x) && ir_of_ast(*inner, *x),
        crate::ast::Type::MutRef(inner) => r matches IrType::Ptr(x) && ir_of_ast(*inner, *x),
        crate::ast::Type::Array(inner) => r matches IrType::Ptr(x) && ir_of_ast(*inner, *x),
        crate::ast::Type::Tuple(types) => r matches IrType::Tuple(elems) && elems@.len()
            == types@.len() && (forall|k: int|
            0 <= k < types@.len() ==> ir_of_ast(#[trigger] types@[k], elems@[k])),
        crate::ast::Type::Function { params, return_type } => r matches IrType::Function {
            params: ps,
            ret,
        } && ps@.len() == params@.len() && (forall|k: int|
            0 <= k < params@.len() ==> ir_of_ast(#[trigger] params@[k], ps@[k])) && ir_of_ast(
            *return_type,
            *ret,
        ),
    }
}

#[via_fn]
proof fn ir_of_ast_decreases(t: crate::ast::Type, r: IrType) {
    crate::ast::lemma_ast_children_shallower(t);
}

impl Clone for IrType {
    fn clone(&self) -> (r: Self)
        decreases ir_depth(*self), 0int,
    {
        match self {
            IrType::Void => IrType::Void,
            IrType::I64 => IrType::I64,
            IrType::F64 => IrType::F64,
            IrType::Bool => IrType::Bool,
            IrType::String => IrType::String,
            IrType::Ptr(inner) => IrType::Ptr(Box::new((**inner).clone())),
            IrType::Array(inner, count) => IrType::Array(Box::new((**inner).clone()), *count),
            IrType::Struct(name) => IrType::Struct(name.clone()),
            IrType::Function { params, ret } => IrType::Function {
                params: clone_ir_types(params),
                ret: Box::new((**ret).clone()),
            },
            IrType::Future(inner) => IrType::Future(Box::new((**inner).clone())),
            IrType::Tuple(elems) => IrType::Tuple(clone_ir_types(elems)),
            IrType::Range(inner) => IrType::Range(Box::new((**inner).clone())),
        }
    }
}

/// Clones every element of a vector of IR types.
fn clone_ir_types(v: &Vec<IrType>) -> (r: Vec<IrType>)
    decreases irs_depth(v@), 1int,
{
    let mut r: Vec<IrType> = Vec::new();
    let mut i: usize = 0;
    while i < v.len()
        invariant
            i <= v@.len(),
        decreases v@.len() - i,
    {
        proof {
            lemma_irs_depth(v@, i as int);
        }
        r.push(v[i].clone());
        i = i + 1;
    }
    r
}

/// Saturating addition at the machine word limit.
pub open spec fn sat_add(a: nat, b: nat) -> nat {
    if a + b > usize::MAX {
        usize::MAX as nat
    } else {
        a + b
    }
}

/// The approximate size in bytes of an IR type, for allocation; products
/// and sums saturate at the machine word limit.
pub open spec fn spec_size_bytes(t: IrType) -> nat
    decreases t,
{
    match t {
        IrType::Void => 0,
        IrType::Bool => 1,
        IrType::I64 => 8,
        IrType::F64 => 8,
        IrType::String => 16,
        IrType::Ptr(_) => 8,
        IrType::Array(elem, count) => {
            let e = spec_size_bytes(*elem);
            if count == 0 {
                0
            } else if e > usize::MAX as nat / count as nat {
                usize::MAX as nat
            } else {
                e * count as nat
            }
        },
        IrType::Struct(_) => 0,
        IrType::Function { .. } => 8,
        IrType::Future(_) => 8,
        IrType::Tuple(elems) => spec_sizes_sum(elems@),
        IrType::Range(_) => 24,
    }
}

/// The saturating sum of the sizes of a list of IR types.
pub open spec fn spec_sizes_sum(s: Seq<IrType>) -> nat
    decreases s,
{
    if s.len() == 0 {
        0
    } else {
        sat_add(spec_sizes_sum(s.drop_last()), spec_size_bytes(s.last()))
    }
}

impl IrType {
    /// The approximate size in bytes, for allocation.
    pub fn size_bytes(&self) -> (r: usize)
        ensures
            r == spec_size_bytes(*self),
        decreases ir_depth(*self), 0int,
    {
        match self {
            IrType::Void => 0,
            IrType::Bool => 1,
            IrType::I64 => 8,
            IrType::F64 => 8,
            IrType::String => 16,
            IrType::Ptr(_) => 8,
            IrType::Array(elem, count) => {
                let e = elem.size_bytes();
                let c = *count;
                if c == 0 {
                    0
                } else if e > usize::MAX / c {
                    usize::MAX
                } else {
                    proof {
                        assert((e as int) * (c as int) <= usize::MAX as int) by (nonlinear_arith)
                            requires
                                c as int >= 1,
                                e as int <= usize::MAX as int / (c as int),
                        ;
                    }
                    e * c
                }
            },
            IrType::Struct(_) => 0,
            IrType::Function { .. } => 8,
            IrType::Future(_) => 8,
            IrType::Tuple(elems) => sum_sizes(elems),
            IrType::Range(_) => 24,
        }
    }

    /// Whether this is a primitive type.
    pub fn is_primitive(&self) -> (r: bool)
        ensures
            r == (self is Void || self is Bool || self is I64 || self is F64),
    {
        matches!(self, IrType::Void | IrType::Bool | IrType::I64 | IrType::F64)
    }

    /// Whether this is a pointer-like type.
    pub fn is_pointer(&self) -> (r: bool)
        ensures
            r == (self is Ptr || self is String || self is Future),
    {
        matches!(self, IrType::Ptr(_) | IrType::String | IrType::Future(_))
    }

    /// Converts a syntactic type to an IR type.
    pub fn from_mendes_type(ty: &crate::ast::Type) -> (r: Self)
        ensures
            ir_of_ast(*ty, r),
        decreases crate::ast::ast_type_depth(*ty), 0int,
    {
        match ty {
            crate::ast::Type::Int => IrType::I64,
            crate::ast::Type::Float => IrType::F64,
            crate::ast::Type::Bool => IrType::Bool,
            crate::ast::Type::String => IrType::String,
            crate::ast::Type::Named(name) => IrType::Struct(name.clone()),
            crate::ast::Type::Generic { name, args } => {
                if crate::text::string_is(name, "Result") || crate::text::string_is(
                    name,
                    "Option",
                ) {
                    // Result and Option instantiations become tagged structs
                    // named after the instantiation.
                    let mut s = name.clone();
                    let mut i: usize = 0;
                    proof {
                        assert(args@.subrange(0, args@.len() as int) =~= args@);
                    }
                    while i < args.len()
                        invariant
                            i <= args@.len(),
                            spec_mangle(s@, args@.subrange(i as int, args@.len() as int))
                                == spec_mangle(name@, args@),
                        decreases args@.len() - i,
                    {
                        proof {
                            crate::ast::lemma_ast_types_depth(args@, i as int);
                            assert(args@.subrange(i as int, args@.len() as int)[0] == args@[
                                i as int
                            ]);
                            assert(args@.subrange(
                                i as int,
                                args@.len() as int,
                            ).drop_first() =~= args@.subrange(i + 1, args@.len() as int));
                        }
                        let ghost spre = s@;
                        push_char(&mut s, '_');
                        let t = ast_type_tag(&args[i]);
                        push_str(&mut s, t.as_str());
                        proof {
                            assert(s@ =~= spre + seq!['_'] + spec_type_tag(args@[i as int]));
                        }
                        i = i + 1;
                    }
                    proof {
                        assert(args@.subrange(args@.len() as int, args@.len() as int)
                            =~= Seq::<crate::ast::Type>::empty());
                    }
                    IrType::Struct(s)
                } else {
                    IrType::Struct(name.clone())
                }
            },
            crate::ast::Type::Ref(inner) => IrType::Ptr(Box::new(Self::from_mendes_type(inner))),
            crate::ast::Type::MutRef(inner) => IrType::Ptr(
                Box::new(Self::from_mendes_type(inner)),
            ),
            crate::ast::Type::Array(inner) => IrType::Ptr(Box::new(Self::from_mendes_type(inner))),
            crate::ast::Type::Tuple(types) => {
                IrType::Tuple(from_mendes_types(types))
            },
            crate::ast::Type::Function { params, return_type } => {
                IrType::Function {
                    params: from_mendes_types(params),
                    ret: Box::new(Self::from_mendes_type(return_type)),
                }
            },
        }
    }

    /// Renders the type as IR-style text.
    pub fn to_text(&self) -> (r: String)
        decreases ir_depth(*self), 0int,
    {
        match self {
            IrType::Void => "void".to_owned(),
            IrType::I64 => "i64".to_owned(),
            IrType::F64 => "f64".to_owned(),
            IrType::Bool => "i1".to_owned(),
            IrType::String => "string".to_owned(),
            IrType::Ptr(inner) => {
                let mut s = "*".to_owned();
                let t = inner.to_text();
                push_str(&mut s, t.as_str());
                s
            },
            IrType::Array(elem, size) => {
                let mut s = "[".to_owned();
                let n = u64_to_dec(*size as u64);
                push_str(&mut s, n.as_str());
                push_str(&mut s, " x ");
                let t = elem.to_text();
                push_str(&mut s, t.as_str());
                push_char(&mut s, ']');
                s
            },
            IrType::Struct(name) => {
                let mut s = "%".to_owned();
                push_str(&mut s, name.as_str());
                s
            },
            IrType::Function { params, ret } => {
                let mut s = "fn(".to_owned();
                let inner = ir_types_text(params);
                push_str(&mut s, inner.as_str());
                push_str(&mut s, ") -> ");
                let t = ret.to_text();
                push_str(&mut s, t.as_str());
                s
            },
            IrType::Future(inner) => {
                let mut s = "future<".to_owned();
                let t = inner.to_text();
                push_str(&mut s, t.as_str());
                push_char(&mut s, '>');
                s
            },
            IrType::Tuple(elems) => {
                let mut s = "(".to_owned();
                let inner = ir_types_text(elems);
                push_str(&mut s, inner.as_str());
                push_char(&mut s, ')');
                s
            },
            IrType::Range(inner) => {
                let mut s = "range<".to_owned();
                let t = inner.to_text();
                push_str(&mut s, t.as_str());
                push_char(&mut s, '>');
                s
            },
        }
    }
}

/// The summed size of a list of IR types, saturating.
fn sum_sizes(v: &Vec<IrType>) -> (r: usize)
    ensures
        r == spec_sizes_sum(v@),
    decreases irs_depth(v@), 1int,
{
    let mut total: usize = 0;
    let mut i: usize = 0;
    proof {
        assert(v@.subrange(0, 0) =~= Seq::<IrType>::empty());
    }
    while i < v.len()
        invariant
            i <= v@.len(),
            total == spec_sizes_sum(v@.subrange(0, i as int)),
        decreases v@.len() - i,
    {
        proof {
            lemma_irs_depth(v@, i as int);
            assert(v@.subrange(0, i + 1).drop_last() =~= v@.subrange(0, i as int));
            assert(v@.subrange(0, i + 1).last() == v@[i as int]);
        }
        let e = v[i].size_bytes();
        total = if total <= usize::MAX - e {
            total + e
        } else {
            usize::MAX
        };
        i = i + 1;
    }
    proof {
        assert(v@.subrange(0, v@.len() as int) =~= v@);
    }
    total
}

/// Renders a comma-separated list of IR types.
fn ir_types_text(v: &Vec<IrType>) -> (r: String)
    decreases irs_depth(v@), 1int,
{
    let mut s = String::new();
    let mut i: usize = 0;
    while i < v.len()
        invariant
            i <= v@.len(),
        decreases v@.len() - i,
    {
        proof {
            lemma_irs_depth(v@, i as int);
        }
        if i > 0 {
            push_str(&mut s, ", ");
        }
        let t = v[i].to_text();
        push_str(&mut s, t.as_str());
        i = i + 1;
    }
    s
}

/// Converts a list of syntactic types.
fn from_mendes_types(v: &Vec<crate::ast::Type>) -> (r: Vec<IrType>)
    ensures
        r@.len() == v@.len(),
        forall|k: int| 0 <= k < v@.len() ==> ir_of_ast(#[trigger] v@[k], r@[k]),
    decreases crate::ast::ast_types_depth(v@), 1int,
{
    let mut r: Vec<IrType> = Vec::new();
    let mut i: usize = 0;
    while i < v.len()
        invariant
            i <= v@.len(),
            r@.len() == i,
            forall|k: int| 0 <= k < i ==> ir_of_ast(#[trigger] v@[k], r@[k]),
        decreases v@.len() - i,
    {
        proof {
            crate::ast::lemma_ast_types_depth(v@, i as int);
        }
        r.push(IrType::from_mendes_type(&v[i]));
        i = i + 1;
    }
    r
}

/// A short tag for a syntactic type, used to name result and option
/// instantiations.
fn ast_type_tag(ty: &crate::ast::Type) -> (r: String)
    ensures
        r@ == spec_type_tag(*ty),
{
    match ty {
        crate::ast::Type::Int => "Int".to_owned(),
        crate::ast::Type::Float => "Float".to_owned(),
        crate::ast::Type::Bool => "Bool".to_owned(),
        crate::ast::Type::String => "String".to_owned(),
        crate::ast::Type::Named(name) => name.clone(),
        crate::ast::Type::Generic { name, args: _ } => name.clone(),
        _ => "T".to_owned(),
    }
}

/// Generic parameter in the IR.
#[derive(Debug, Clone)]
pub struct GenericParam {
    /// Parameter name, such as `T`.
    pub name: String,
    /// Trait bounds.
    pub bounds: Vec<String>,
}

impl GenericParam {
    pub fn new(name: &str) -> (r: Self)
        ensures
            r.name@ == name@,
            r.bounds@ =~= Seq::<String>::empty(),
    {
        GenericParam { name: name.to_owned(), bounds: Vec::new() }
    }

    pub fn with_bounds(self, bounds: Vec<String>) -> (r: Self)
        ensures
            r.name == self.name,
            r.bounds == bounds,
    {
        GenericParam { name: self.name, bounds }
    }
}

/// Struct definition in the IR.
#[derive(Debug, Clone)]
pub struct StructDef {
    pub name: String,
    /// Generic type parameters.
    pub generic_params: Vec<GenericParam>,
    pub fields: Vec<(String, IrType)>,
    /// Method names; the methods themselves are separate functions.
    pub methods: Vec<String>,
}

impl StructDef {
    pub fn new(name: String) -> (r: Self)
        ensures
            r.name == name,
            r.fields@ =~= Seq::<(String, IrType)>::empty(),
            r.methods@ =~= Seq::<String>::empty(),
    {
        StructDef { name, generic_params: Vec::new(), fields: Vec::new(), methods: Vec::new() }
    }

    pub fn with_generics(self, params: Vec<GenericParam>) -> (r: Self)
        ensures
            r.name == self.name && r.fields == self.fields && r.methods == self.methods,
            r.generic_params == params,
    {
        StructDef {
            name: self.name,
            generic_params: params,
            fields: self.fields,
            methods: self.methods,
        }
    }

    pub fn add_generic_param(&mut self, param: GenericParam)
        ensures
            final(self).generic_params@ == old(self).generic_params@.push(param),
            final(self).name == old(self).name && final(self).fields == old(self).fields
                && final(self).methods == old(self).methods,
    {
        self.generic_params.push(param);
    }

    pub fn add_field(&mut self, name: String, ty: IrType)
        ensures
            final(self).fields@ == old(self).fields@.push((name, ty)),
            final(self).name == old(self).name && final(self).methods == old(self).methods,
            final(self).generic_params == old(self).generic_params,
    {
        self.fields.push((name, ty));
    }

    pub fn add_method(&mut self, name: String)
        ensures
            final(self).methods@ == old(self).methods@.push(name),
            final(self).name == old(self).name && final(self).fields == old(self).fields,
            final(self).generic_params == old(self).generic_params,
    {
        self.methods.push(name);
    }

    /// The index of a field by name, searching in order.
    pub fn field_index(&self, name: &str) -> (r: Option<usize>)
        ensures
            match r {
                Some(i) => i < self.fields@.len() && self.fields@[i as int].0@ == name@,
                None => true,
            },
    {
        let mut i: usize = 0;
        while i < self.fields.len()
            invariant
                i <= self.fields@.len(),
            decreases self.fields@.len() - i,
        {
            if crate::text::string_is(&self.fields[i].0, name) {
                return Some(i);
            }
            i = i + 1;
        }
        None
    }

    /// The type of a field by name.
    pub fn field_type(&self, name: &str) -> (r: Option<&IrType>) {
        let mut i: usize = 0;
        while i < self.fields.len()
            invariant
                i <= self.fields@.len(),
            decreases self.fields@.len() - i,
        {
            if crate::text::string_is(&self.fields[i].0, name) {
                return Some(&self.fields[i].1);
            }
            i = i + 1;
        }
        None
    }

    /// Whether the struct has a method of the given name.
    pub fn has_method(&self, name: &str) -> (r: bool) {
        let mut i: usize = 0;
        while i < self.methods.len()
            invariant
                i <= self.methods@.len(),
            decreases self.methods@.len() - i,
        {
            if crate::text::string_is(&self.methods[i], name) {
                return true;
            }
            i = i + 1;
        }
        false
    }
}

} // verus!
