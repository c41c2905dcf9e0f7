//! The Mendes type model: a recursive sum type with a structural
//! compatibility relation, and the registry of user-defined types.

use vstd::prelude::*;

use crate::assoc::{assoc_find, assoc_get, assoc_set};
use crate::text::{push_char, push_str, string_is};

verus! {

broadcast use
    vstd::seq::axiom_seq_index_decreases,
    vstd::std_specs::vec::axiom_vec_index_decreases,
    vstd::std_specs::vec::axiom_vec_decreases_to_view;

/// Unique ID of a type.
pub type TypeId = u32;

/// Types of the Mendes language.
#[derive(Debug, PartialEq)]
pub enum MendesType {
    /// Unknown type (error or pending inference); compatible with everything.
    Unknown,
    /// Any type (accepts any type, for built-ins).
    Any,
    /// Unit type (void).
    Unit,
    /// Integer.
    Int,
    /// Float.
    Float,
    /// Boolean.
    Bool,
    /// String.
    String,
    /// Named type (struct, enum).
    Named(std::string::String),
    /// Generic type, such as a result or option instantiation.
    Generic { name: std::string::String, args: Vec<MendesType> },
    /// Immutable reference.
    Ref(Box<MendesType>),
    /// Mutable reference.
    MutRef(Box<MendesType>),
    /// Array.
    Array(Box<MendesType>),
    /// Function.
    Function { params: Vec<MendesType>, ret: Box<MendesType> },
    /// Future (result of an async function).
    Future(Box<MendesType>),
    /// Tuple.
    Tuple(Vec<MendesType>),
    /// Range (for iteration).
    Range(Box<MendesType>),
}

/// Structural depth of a type; the measure for recursion over pairs of types.
pub open spec fn type_depth(t: MendesType) -> nat
    decreases t,
{
    match t {
        MendesType::Generic { name: _, args } => 1 + types_depth(args@),
        MendesType::Ref(inner) => 1 + type_depth(*inner),
        MendesType::MutRef(inner) => 1 + type_depth(*inner),
        MendesType::Array(inner) => 1 + type_depth(*inner),
        MendesType::Function { params, ret } => {
            let d = types_depth(params@);
            let r = type_depth(*ret);
            1 + if d > r { d } else { r }
        },
        MendesType::Future(inner) => 1 + type_depth(*inner),
        MendesType::Tuple(types) => 1 + types_depth(types@),
        MendesType::Range(inner) => 1 + type_depth(*inner),
        _ => 1,
    }
}

/// The largest depth among a sequence of types.
pub open spec fn types_depth(s: Seq<MendesType>) -> nat
    decreases s,
{
    if s.len() == 0 {
        0
    } else {
        let d0 = type_depth(s[0]);
        let dr = types_depth(s.drop_first());
        if d0 > dr {
            d0
        } else {
            dr
        }
    }
}

/// Every element of a sequence is at most as deep as the sequence.
pub proof fn lemma_types_depth(s: Seq<MendesType>, i: int)
    requires
        0 <= i < s.len(),
    ensures
        type_depth(s[i]) <= types_depth(s),
    decreases s.len(),
{
    if i > 0 {
        lemma_types_depth(s.drop_first(), i - 1);
        assert(s.drop_first()[i - 1] == s[i]);
    }
}

/// The structural compatibility relation on types. `Unknown` and `Any` are
/// compatible with everything; compound types recurse structurally; and a
/// closure encoding `Generic { "Fn", [params..., ret] }` is compatible with
/// the equivalent `Function` type in both directions.
pub open spec fn type_compatible(a: MendesType, b: MendesType) -> bool
    decreases type_depth(a) + type_depth(b),
    via type_compatible_decreases
{
    match (a, b) {
        (MendesType::Unknown, _) => true,
        (_, MendesType::Unknown) => true,
        (MendesType::Any, _) => true,
        (_, MendesType::Any) => true,
        (MendesType::Int, MendesType::Int) => true,
        (MendesType::Float, MendesType::Float) => true,
        (MendesType::Bool, MendesType::Bool) => true,
        (MendesType::String, MendesType::String) => true,
        (MendesType::Unit, MendesType::Unit) => true,
        (MendesType::Named(x), MendesType::Named(y)) => x@ == y@,
        (MendesType::Array(x), MendesType::Array(y)) => type_compatible(*x, *y),
        (MendesType::Ref(x), MendesType::Ref(y)) => type_compatible(*x, *y),
        (MendesType::MutRef(x), MendesType::MutRef(y)) => type_compatible(*x, *y),
        (
            MendesType::Generic { name: n1, args: a1 },
            MendesType::Generic { name: n2, args: a2 },
        ) => {
            &&& n1@ == n2@
            &&& a1@.len() == a2@.len()
            &&& forall|i: int|
                0 <= i < a1@.len() ==> type_compatible(#[trigger] a1@[i], a2@[i])
        },
        (MendesType::Tuple(t1), MendesType::Tuple(t2)) => {
            &&& t1@.len() == t2@.len()
            &&& forall|i: int|
                0 <= i < t1@.len() ==> type_compatible(#[trigger] t1@[i], t2@[i])
        },
        (MendesType::Range(x), MendesType::Range(y)) => type_compatible(*x, *y),
        (MendesType::Future(x), MendesType::Future(y)) => type_compatible(*x, *y),
        (
            MendesType::Function { params: p1, ret: r1 },
            MendesType::Function { params: p2, ret: r2 },
        ) => {
            &&& p1@.len() == p2@.len()
            &&& forall|i: int|
                0 <= i < p1@.len() ==> type_compatible(#[trigger] p1@[i], p2@[i])
            &&& type_compatible(*r1, *r2)
        },
        (
            MendesType::Generic { name, args },
            MendesType::Function { params, ret },
        ) => {
            &&& name@ == "Fn"@
            &&& args@.len() == params@.len() + 1
            &&& forall|i: int|
                0 <= i < params@.len() ==> type_compatible(#[trigger] params@[i], args@[i])
            &&& type_compatible(*ret, args@.last())
        },
        (
            MendesType::Function { params, ret },
            MendesType::Generic { name, args },
        ) => {
            &&& name@ == "Fn"@
            &&& args@.len() == params@.len() + 1
            &&& forall|i: int|
                0 <= i < params@.len() ==> type_compatible(#[trigger] params@[i], args@[i])
            &&& type_compatible(*ret, args@.last())
        },
        _ => false,
    }
}

#[via_fn]
proof fn type_compatible_decreases(a: MendesType, b: MendesType) {
    lemma_all_children_shallower(a);
    lemma_all_children_shallower(b);
}

/// Every immediate child of a type is strictly shallower than the type.
proof fn lemma_all_children_shallower(t: MendesType)
    ensures
        forall|s: Seq<MendesType>, i: int|
            type_has_elems(t, s) && 0 <= i < s.len() ==> type_depth(#[trigger] s[i]) < type_depth(
                t,
            ),
        forall|u: MendesType| type_has_child(t, u) ==> type_depth(u) < type_depth(t),
{
    assert forall|s: Seq<MendesType>, i: int|
        type_has_elems(t, s) && 0 <= i < s.len() implies type_depth(#[trigger] s[i]) < type_depth(
        t,
    ) by {
        lemma_types_depth(s, i);
    }
}

/// The element sequences directly held by a type.
pub open spec fn type_has_elems(t: MendesType, s: Seq<MendesType>) -> bool {
    match t {
        MendesType::Generic { name: _, args } => s == args@,
        MendesType::Tuple(types) => s == types@,
        MendesType::Function { params, ret: _ } => s == params@,
        _ => false,
    }
}

/// The single children directly held by a type.
pub open spec fn type_has_child(t: MendesType, u: MendesType) -> bool {
    match t {
        MendesType::Ref(inner) => u == *inner,
        MendesType::MutRef(inner) => u == *inner,
        MendesType::Array(inner) => u == *inner,
        MendesType::Future(inner) => u == *inner,
        MendesType::Range(inner) => u == *inner,
        MendesType::Function { params: _, ret } => u == *ret,
        _ => false,
    }
}

/// `Unknown` is compatible with every type, in both directions.
pub proof fn lemma_unknown_compatible(t: MendesType)
    ensures
        type_compatible(MendesType::Unknown, t),
        type_compatible(t, MendesType::Unknown),
{
}

/// `Any` is compatible with every type, in both directions.
pub proof fn lemma_any_compatible(t: MendesType)
    ensures
        type_compatible(MendesType::Any, t),
        type_compatible(t, MendesType::Any),
{
}

/// The compatibility relation is reflexive: every type is compatible with
/// itself.
pub proof fn lemma_compatible_reflexive(t: MendesType)
    ensures
        type_compatible(t, t),
    decreases type_depth(t),
{
    match t {
        MendesType::Generic { name, args } => {
            assert forall|i: int|
                0 <= i < args@.len() implies type_compatible(#[trigger] args@[i], args@[i]) by {
                lemma_types_depth(args@, i);
                lemma_compatible_reflexive(args@[i]);
            }
        },
        MendesType::Tuple(types) => {
            assert forall|i: int|
                0 <= i < types@.len() implies type_compatible(#[trigger] types@[i], types@[i]) by {
                lemma_types_depth(types@, i);
                lemma_compatible_reflexive(types@[i]);
            }
        },
        MendesType::Function { params, ret } => {
            assert forall|i: int|
                0 <= i < params@.len() implies type_compatible(
                #[trigger] params@[i],
                params@[i],
            ) by {
                lemma_types_depth(params@, i);
                lemma_compatible_reflexive(params@[i]);
            }
            lemma_compatible_reflexive(*ret);
        },
        MendesType::Ref(inner) => {
            lemma_compatible_reflexive(*inner);
        },
        MendesType::MutRef(inner) => {
            lemma_compatible_reflexive(*inner);
        },
        MendesType::Array(inner) => {
            lemma_compatible_reflexive(*inner);
        },
        MendesType::Future(inner) => {
            lemma_compatible_reflexive(*inner);
        },
        MendesType::Range(inner) => {
            lemma_compatible_reflexive(*inner);
        },
        _ => {},
    }
}

impl MendesType {
    /// Whether the type is a primitive that is copied rather than moved.
    pub open spec fn spec_is_copy(&self) -> bool {
        self is Int || self is Float || self is Bool || self is Unit
    }

    /// Checks whether the type is primitive (copy by default).
    pub fn is_copy(&self) -> (r: bool)
        ensures
            r == self.spec_is_copy(),
    {
        matches!(self, MendesType::Int | MendesType::Float | MendesType::Bool | MendesType::Unit)
    }

    /// Checks whether the type is a reference.
    pub fn is_ref(&self) -> (r: bool)
        ensures
            r == (self is Ref || self is MutRef),
    {
        matches!(self, MendesType::Ref(_) | MendesType::MutRef(_))
    }

    /// The inner type of a reference.
    pub fn inner_type(&self) -> (r: Option<&MendesType>)
        ensures
            match r {
                Some(inner) => (self matches MendesType::Ref(x) && *inner == *x) || (
                self matches MendesType::MutRef(x) && *inner == *x),
                None => !(self is Ref) && !(self is MutRef),
            },
    {
        match self {
            MendesType::Ref(inner) => Some(inner),
            MendesType::MutRef(inner) => Some(inner),
            _ => None,
        }
    }

    /// Checks whether two types are compatible.
    pub fn is_compatible_with(&self, other: &MendesType) -> (r: bool)
        ensures
            r == type_compatible(*self, *other),
        decreases type_depth(*self) + type_depth(*other),
    {
        match (self, other) {
            (MendesType::Unknown, _) => true,
            (_, MendesType::Unknown) => true,
            (MendesType::Any, _) => true,
            (_, MendesType::Any) => true,
            (MendesType::Int, MendesType::Int) => true,
            (MendesType::Float, MendesType::Float) => true,
            (MendesType::Bool, MendesType::Bool) => true,
            (MendesType::String, MendesType::String) => true,
            (MendesType::Unit, MendesType::Unit) => true,
            (MendesType::Named(x), MendesType::Named(y)) => string_is(x, y.as_str()),
            (MendesType::Array(x), MendesType::Array(y)) => x.is_compatible_with(y),
            (MendesType::Ref(x), MendesType::Ref(y)) => x.is_compatible_with(y),
            (MendesType::MutRef(x), MendesType::MutRef(y)) => x.is_compatible_with(y),
            (
                MendesType::Generic { name: n1, args: a1 },
                MendesType::Generic { name: n2, args: a2 },
            ) => {
                string_is(n1, n2.as_str()) && a1.len() == a2.len() && prefix_compatible(
                    a1,
                    a2,
                    a1.len(),
                )
            },
            (MendesType::Tuple(t1), MendesType::Tuple(t2)) => {
                t1.len() == t2.len() && prefix_compatible(t1, t2, t1.len())
            },
            (MendesType::Range(x), MendesType::Range(y)) => x.is_compatible_with(y),
            (MendesType::Future(x), MendesType::Future(y)) => x.is_compatible_with(y),
            (
                MendesType::Function { params: p1, ret: r1 },
                MendesType::Function { params: p2, ret: r2 },
            ) => {
                p1.len() == p2.len() && prefix_compatible(p1, p2, p1.len())
                    && r1.is_compatible_with(r2)
            },
            (
                MendesType::Generic { name, args },
                MendesType::Function { params, ret },
            ) => {
                if string_is(name, "Fn") && args.len() > 0 && args.len() - 1 == params.len() {
                    proof {
                        lemma_types_depth(args@, args@.len() - 1);
                    }
                    prefix_compatible(params, args, params.len()) && ret.is_compatible_with(
                        &args[args.len() - 1],
                    )
                } else {
                    false
                }
            },
            (
                MendesType::Function { params, ret },
                MendesType::Generic { name, args },
            ) => {
                if string_is(name, "Fn") && args.len() > 0 && args.len() - 1 == params.len() {
                    proof {
                        lemma_types_depth(args@, args@.len() - 1);
                    }
                    prefix_compatible(params, args, params.len()) && ret.is_compatible_with(
                        &args[args.len() - 1],
                    )
                } else {
                    false
                }
            },
            _ => false,
        }
    }
}

impl Clone for MendesType {
    fn clone(&self) -> (r: Self)
        ensures
            type_equal(*self, r),
        decreases type_depth(*self), 0int,
    {
        match self {
            MendesType::Unknown => MendesType::Unknown,
            MendesType::Any => MendesType::Any,
            MendesType::Unit => MendesType::Unit,
            MendesType::Int => MendesType::Int,
            MendesType::Float => MendesType::Float,
            MendesType::Bool => MendesType::Bool,
            MendesType::String => MendesType::String,
            MendesType::Named(s) => MendesType::Named(s.clone()),
            MendesType::Generic { name, args } => MendesType::Generic {
                name: name.clone(),
                args: clone_types(args),
            },
            MendesType::Ref(inner) => MendesType::Ref(Box::new((**inner).clone())),
            MendesType::MutRef(inner) => MendesType::MutRef(Box::new((**inner).clone())),
            MendesType::Array(inner) => MendesType::Array(Box::new((**inner).clone())),
            MendesType::Function { params, ret } => MendesType::Function {
                params: clone_types(params),
                ret: Box::new((**ret).clone()),
            },
            MendesType::Future(inner) => MendesType::Future(Box::new((**inner).clone())),
            MendesType::Tuple(types) => MendesType::Tuple(clone_types(types)),
            MendesType::Range(inner) => MendesType::Range(Box::new((**inner).clone())),
        }
    }
}

/// Structural equality of types: the same shape, with equal names.
pub open spec fn type_equal(a: MendesType, b: MendesType) -> bool
    decreases type_depth(a) + type_depth(b),
    via type_equal_decreases
{
    match (a, b) {
        (MendesType::Unknown, MendesType::Unknown) => true,
        (MendesType::Any, MendesType::Any) => true,
        (MendesType::Unit, MendesType::Unit) => true,
        (MendesType::Int, MendesType::Int) => true,
        (MendesType::Float, MendesType::Float) => true,
        (MendesType::Bool, MendesType::Bool) => true,
        (MendesType::String, MendesType::String) => true,
        (MendesType::Named(x), MendesType::Named(y)) => x@ == y@,
        (
            MendesType::Generic { name: n1, args: a1 },
            MendesType::Generic { name: n2, args: a2 },
        ) => {
            &&& n1@ == n2@
            &&& a1@.len() == a2@.len()
            &&& forall|i: int| 0 <= i < a1@.len() ==> type_equal(#[trigger] a1@[i], a2@[i])
        },
        (MendesType::Ref(x), MendesType::Ref(y)) => type_equal(*x, *y),
        (MendesType::MutRef(x), MendesType::MutRef(y)) => type_equal(*x, *y),
        (MendesType::Array(x), MendesType::Array(y)) => type_equal(*x, *y),
        (
            MendesType::Function { params: p1, ret: r1 },
            MendesType::Function { params: p2, ret: r2 },
        ) => {
            &&& p1@.len() == p2@.len()
            &&& forall|i: int| 0 <= i < p1@.len() ==> type_equal(#[trigger] p1@[i], p2@[i])
            &&& type_equal(*r1, *r2)
        },
        (MendesType::Future(x), MendesType::Future(y)) => type_equal(*x, *y),
        (MendesType::Tuple(t1), MendesType::Tuple(t2)) => {
            &&& t1@.len() == t2@.len()
            &&& forall|i: int| 0 <= i < t1@.len() ==> type_equal(#[trigger] t1@[i], t2@[i])
        },
        (MendesType::Range(x), MendesType::Range(y)) => type_equal(*x, *y),
        _ => false,
    }
}

#[via_fn]
proof fn type_equal_decreases(a: MendesType, b: MendesType) {
    lemma_all_children_shallower(a);
    lemma_all_children_shallower(b);
}

/// Clones every element of a vector of types.
fn clone_types(v: &Vec<MendesType>) -> (r: Vec<MendesType>)
    ensures
        r@.len() == v@.len(),
        forall|i: int| 0 <= i < v@.len() ==> type_equal(#[trigger] v@[i], r@[i]),
    decreases types_depth(v@), 1int,
{
    let mut r: Vec<MendesType> = Vec::new();
    let mut i: usize = 0;
    while i < v.len()
        invariant
            i <= v@.len(),
            r@.len() == i,
            forall|j: int| 0 <= j < i ==> type_equal(#[trigger] v@[j], r@[j]),
        decreases v@.len() - i,
    {
        proof {
            lemma_types_depth(v@, i as int);
        }
        r.push(v[i].clone());
        i = i + 1;
    }
    r
}

/// Checks the compatibility of the first `n` elements, pointwise.
fn prefix_compatible(xs: &Vec<MendesType>, ys: &Vec<MendesType>, n: usize) -> (r: bool)
    requires
        n <= xs@.len(),
        n <= ys@.len(),
    ensures
        r == forall|i: int| 0 <= i < n ==> type_compatible(#[trigger] xs@[i], ys@[i]),
    decreases types_depth(xs@) + types_depth(ys@) + 1,
{
    let mut i: usize = 0;
    while i < n
        invariant
            i <= n,
            n <= xs@.len(),
            n <= ys@.len(),
            forall|j: int| 0 <= j < i ==> type_compatible(#[trigger] xs@[j], ys@[j]),
        decreases n - i,
    {
        proof {
            lemma_types_depth(xs@, i as int);
            lemma_types_depth(ys@, i as int);
        }
        if !xs[i].is_compatible_with(&ys[i]) {
            return false;
        }
        i = i + 1;
    }
    true
}


impl MendesType {
    /// Renders the type as source-style text.
    pub fn to_text(&self) -> (r: String)
        decreases type_depth(*self), 0int,
    {
        match self {
            MendesType::Unknown => "?".to_owned(),
            MendesType::Any => "any".to_owned(),
            MendesType::Unit => "()".to_owned(),
            MendesType::Int => "int".to_owned(),
            MendesType::Float => "float".to_owned(),
            MendesType::Bool => "bool".to_owned(),
            MendesType::String => "string".to_owned(),
            MendesType::Named(name) => name.clone(),
            MendesType::Generic { name, args } => {
                let mut s = name.clone();
                push_char(&mut s, '<');
                let inner = types_to_text(args);
                push_str(&mut s, inner.as_str());
                push_char(&mut s, '>');
                s
            },
            MendesType::Ref(inner) => {
                let mut s = "&".to_owned();
                let t = inner.to_text();
                push_str(&mut s, t.as_str());
                s
            },
            MendesType::MutRef(inner) => {
                let mut s = "&mut ".to_owned();
                let t = inner.to_text();
                push_str(&mut s, t.as_str());
                s
            },
            MendesType::Array(inner) => {
                let mut s = "[".to_owned();
                let t = inner.to_text();
                push_str(&mut s, t.as_str());
                push_char(&mut s, ']');
                s
            },
            MendesType::Function { params, ret } => {
                let mut s = "fn(".to_owned();
                let inner = types_to_text(params);
                push_str(&mut s, inner.as_str());
                push_str(&mut s, ") -> ");
                let t = ret.to_text();
                push_str(&mut s, t.as_str());
                s
            },
            MendesType::Future(inner) => {
                let mut s = "Future<".to_owned();
                let t = inner.to_text();
                push_str(&mut s, t.as_str());
                push_char(&mut s, '>');
                s
            },
            MendesType::Tuple(types) => {
                let mut s = "(".to_owned();
                let inner = types_to_text(types);
                push_str(&mut s, inner.as_str());
                push_char(&mut s, ')');
                s
            },
            MendesType::Range(inner) => {
                let mut s = "Range<".to_owned();
                let t = inner.to_text();
                push_str(&mut s, t.as_str());
                push_char(&mut s, '>');
                s
            },
        }
    }
}

/// Renders a comma-separated list of types.
fn types_to_text(v: &Vec<MendesType>) -> (r: String)
    decreases types_depth(v@), 1int,
{
    let mut s = String::new();
    let mut i: usize = 0;
    while i < v.len()
        invariant
            i <= v@.len(),
        decreases v@.len() - i,
    {
        proof {
            lemma_types_depth(v@, i as int);
        }
        if i > 0 {
            push_str(&mut s, ", ");
        }
        let t = v[i].to_text();
        push_str(&mut s, t.as_str());
        i = i + 1;
    }
    s
}

/// Definition of a struct.
#[derive(Debug, Clone)]
pub struct StructDef {
    pub name: String,
    pub fields: Vec<(String, MendesType)>,
    /// Methods: name, parameters, return type, and whether the method is
    /// async.
    pub methods: Vec<(String, Vec<(String, MendesType)>, MendesType, bool)>,
    pub is_copy: bool,
}

/// Whether some entry of a name list has the given text.
pub open spec fn name_among(s: Seq<String>, n: Seq<char>) -> bool {
    exists|i: int| 0 <= i < s.len() && (#[trigger] s[i])@ == n
}

/// Appending one name affects membership only for that name's text.
proof fn lemma_name_among_push(s: Seq<String>, e: String, n: Seq<char>)
    ensures
        name_among(s.push(e), n) == (name_among(s, n) || e@ == n),
{
    if name_among(s, n) {
        let i = choose|i: int| 0 <= i < s.len() && s[i]@ == n;
        assert(s.push(e)[i]@ == n);
    }
    if e@ == n {
        assert(s.push(e)[s.len() as int]@ == n);
    }
    if name_among(s.push(e), n) {
        let i = choose|i: int| 0 <= i < s.push(e).len() && s.push(e)[i]@ == n;
        if i < s.len() {
            assert(s[i]@ == n);
        }
    }
}

/// Registry of user-defined types and in-scope generic type parameters.
#[derive(Debug)]
pub struct TypeRegistry {
    structs: Vec<(String, StructDef)>,
    /// Currently active generic type parameters.
    generic_params: Vec<String>,
}

impl TypeRegistry {
    /// The struct registered under a name, if any.
    pub closed spec fn spec_get_struct(&self, name: Seq<char>) -> Option<StructDef> {
        assoc_find(self.structs@, name)
    }

    /// Whether a name is a registered generic type parameter.
    pub closed spec fn spec_is_generic(&self, name: Seq<char>) -> bool {
        name_among(self.generic_params@, name)
    }

    pub fn new() -> (r: Self)
        ensures
            forall|n: Seq<char>| r.spec_get_struct(n) is None,
            forall|n: Seq<char>| !r.spec_is_generic(n),
    {
        TypeRegistry { structs: Vec::new(), generic_params: Vec::new() }
    }

    /// Registers a struct under its name, replacing any previous entry.
    pub fn register_struct(&mut self, def: StructDef)
        ensures
            final(self).spec_get_struct(def.name@) == Some(def),
            forall|n: Seq<char>|
                n != def.name@ ==> final(self).spec_get_struct(n) == old(self).spec_get_struct(n),
            forall|n: Seq<char>| final(self).spec_is_generic(n) == old(self).spec_is_generic(n),
    {
        let name = def.name.clone();
        assoc_set(&mut self.structs, name, def);
        proof {
            assert forall|n: Seq<char>|
                self.spec_is_generic(n) == old(self).spec_is_generic(n) by {
                if self.spec_is_generic(n) {
                    let i = choose|i: int|
                        0 <= i < self.generic_params@.len() && self.generic_params@[i]@ == n;
                    assert(0 <= i < old(self).generic_params@.len() && old(
                        self,
                    ).generic_params@[i]@ == n);
                }
                if old(self).spec_is_generic(n) {
                    let i = choose|i: int|
                        0 <= i < old(self).generic_params@.len() && old(
                            self,
                        ).generic_params@[i]@ == n;
                    assert(0 <= i < self.generic_params@.len() && self.generic_params@[i]@ == n);
                }
            }
        }
    }

    /// Looks up a struct by name.
    pub fn get_struct(&self, name: &str) -> (r: Option<&StructDef>)
        ensures
            match r {
                Some(def) => self.spec_get_struct(name@) == Some(*def),
                None => self.spec_get_struct(name@) is None,
            },
    {
        assoc_get(&self.structs, name)
    }

    /// Registers a generic type parameter.
    pub fn register_generic_param(&mut self, name: &str)
        ensures
            final(self).spec_is_generic(name@),
            forall|n: Seq<char>|
                n != name@ ==> final(self).spec_is_generic(n) == old(self).spec_is_generic(n),
            forall|n: Seq<char>| final(self).spec_get_struct(n) == old(self).spec_get_struct(n),
    {
        let ghost orig = self.generic_params@;
        self.generic_params.push(name.to_owned());
        proof {
            assert(self.generic_params@.last()@ == name@);
            assert forall|n: Seq<char>|
                n != name@ implies final(self).spec_is_generic(n) == old(self).spec_is_generic(
                n,
            ) by {
                assert(forall|i: int|
                    0 <= i < orig.len() ==> self.generic_params@[i] == orig[i]);
                if old(self).spec_is_generic(n) {
                    let i = choose|i: int| 0 <= i < orig.len() && orig[i]@ == n;
                    assert(self.generic_params@[i]@ == n);
                }
            }
        }
    }

    /// Unregisters a generic type parameter; every other parameter's
    /// registration and every struct registration is unchanged.
    pub fn unregister_generic_param(&mut self, name: &str)
        ensures
            !final(self).spec_is_generic(name@),
            forall|n: Seq<char>|
                n != name@ ==> final(self).spec_is_generic(n) == old(self).spec_is_generic(n),
            forall|n: Seq<char>| final(self).spec_get_struct(n) == old(self).spec_get_struct(n),
    {
        let ghost orig = self.generic_params@;
        let mut kept: Vec<String> = Vec::new();
        let n = self.generic_params.len();
        let mut i: usize = 0;
        proof {
            assert(orig.subrange(0, 0) =~= Seq::<String>::empty());
        }
        while i < n
            invariant
                orig == old(self).generic_params@,
                self.generic_params@ == orig,
                n == orig.len(),
                i <= n,
                forall|j: int| 0 <= j < kept@.len() ==> #[trigger] kept@[j]@ != name@,
                forall|m: Seq<char>|
                    #![trigger name_among(kept@, m)]
                    name_among(kept@, m) == (name_among(orig.subrange(0, i as int), m) && m
                        != name@),
            decreases n - i,
        {
            let ghost kept0 = kept@;
            let ghost taken = self.generic_params@[i as int];
            if !string_is(&self.generic_params[i], name) {
                let s = self.generic_params[i].clone();
                assert(s@ != name@);
                kept.push(s);
            }
            proof {
                assert(orig.subrange(0, i + 1).drop_last() =~= orig.subrange(0, i as int));
                assert(orig.subrange(0, i + 1) =~= orig.subrange(0, i as int).push(taken));
                assert forall|m: Seq<char>|
                    #![trigger name_among(kept@, m)]
                    name_among(kept@, m) == (name_among(orig.subrange(0, i + 1), m) && m
                        != name@) by {
                    lemma_name_among_push(orig.subrange(0, i as int), taken, m);
                    if kept@.len() > kept0.len() {
                        lemma_name_among_push(kept0, kept@.last(), m);
                        assert(kept@.drop_last() =~= kept0);
                        assert(kept@ =~= kept0.push(kept@.last()));
                    }
                }
            }
            i = i + 1;
        }
        proof {
            assert(orig.subrange(0, n as int) =~= orig);
        }
        self.generic_params = kept;
    }

    /// Checks whether a name is a registered generic parameter.
    pub fn is_generic_param(&self, name: &str) -> (r: bool)
        ensures
            r == self.spec_is_generic(name@),
    {
        let n = self.generic_params.len();
        let mut i: usize = 0;
        while i < n
            invariant
                n == self.generic_params@.len(),
                i <= n,
                forall|j: int| 0 <= j < i ==> #[trigger] self.generic_params@[j]@ != name@,
            decreases n - i,
        {
            if string_is(&self.generic_params[i], name) {
                return true;
            }
            i = i + 1;
        }
        false
    }

    /// Checks whether a type exists: every named or generic component must
    /// resolve to a registered struct, a generic parameter, a built-in, or a
    /// primitive.
    pub fn type_exists(&self, ty: &MendesType) -> (r: bool)
        ensures
            r == spec_type_exists(*self, *ty),
        decreases type_depth(*ty), 0int,
    {
        match ty {
            MendesType::Int | MendesType::Float | MendesType::Bool | MendesType::String
                | MendesType::Unit | MendesType::Unknown | MendesType::Any => true,
            MendesType::Named(name) => {
                self.get_struct(name.as_str()).is_some() || self.is_generic_param(name.as_str())
                    || string_is(name, "HttpError") || string_is(name, "Response")
            },
            MendesType::Generic { name, args } => {
                (string_is(name, "Result") || string_is(name, "Option")) && self.all_exist(args)
            },
            MendesType::Ref(inner) => self.type_exists(inner),
            MendesType::MutRef(inner) => self.type_exists(inner),
            MendesType::Array(inner) => self.type_exists(inner),
            MendesType::Function { params, ret } => {
                self.all_exist(params) && self.type_exists(ret)
            },
            MendesType::Future(inner) => self.type_exists(inner),
            MendesType::Tuple(types) => self.all_exist(types),
            MendesType::Range(inner) => self.type_exists(inner),
        }
    }

    /// Checks that every type of a list exists.
    fn all_exist(&self, v: &Vec<MendesType>) -> (r: bool)
        ensures
            r == forall|i: int| 0 <= i < v@.len() ==> spec_type_exists(*self, #[trigger] v@[i]),
        decreases types_depth(v@), 1int,
    {
        let n = v.len();
        let mut i: usize = 0;
        while i < n
            invariant
                n == v@.len(),
                i <= n,
                forall|j: int| 0 <= j < i ==> spec_type_exists(*self, #[trigger] v@[j]),
            decreases n - i,
        {
            proof {
                lemma_types_depth(v@, i as int);
            }
            if !self.type_exists(&v[i]) {
                return false;
            }
            i = i + 1;
        }
        true
    }
}

/// Whether every named or generic component of a type resolves to a
/// registered struct, a generic parameter, a built-in, or a primitive.
pub open spec fn spec_type_exists(reg: TypeRegistry, t: MendesType) -> bool
    decreases type_depth(t),
    via spec_type_exists_decreases
{
    match t {
        MendesType::Named(name) => {
            ||| reg.spec_get_struct(name@) is Some
            ||| reg.spec_is_generic(name@)
            ||| name@ == "HttpError"@
            ||| name@ == "Response"@
        },
        MendesType::Generic { name, args } => {
            &&& (name@ == "Result"@ || name@ == "Option"@)
            &&& forall|i: int| 0 <= i < args@.len() ==> spec_type_exists(reg, #[trigger] args@[i])
        },
        MendesType::Ref(inner) => spec_type_exists(reg, *inner),
        MendesType::MutRef(inner) => spec_type_exists(reg, *inner),
        MendesType::Array(inner) => spec_type_exists(reg, *inner),
        MendesType::Function { params, ret } => {
            &&& forall|i: int|
                0 <= i < params@.len() ==> spec_type_exists(reg, #[trigger] params@[i])
            &&& spec_type_exists(reg, *ret)
        },
        MendesType::Future(inner) => spec_type_exists(reg, *inner),
        MendesType::Tuple(types) => {
            forall|i: int| 0 <= i < types@.len() ==> spec_type_exists(reg, #[trigger] types@[i])
        },
        MendesType::Range(inner) => spec_type_exists(reg, *inner),
        _ => true,
    }
}

#[via_fn]
proof fn spec_type_exists_decreases(reg: TypeRegistry, t: MendesType) {
    lemma_all_children_shallower(t);
}


/// How a syntactic type maps to its semantic type: a one-to-one structural
/// translation.
pub open spec fn sem_of_ast(t: crate::ast::Type, r: MendesType) -> bool
    decreases crate::ast::ast_type_depth(t),
    via sem_of_ast_decreases
{
    match t {
        crate::ast::Type::Int => r is Int,
        crate::ast::Type::Float => r is Float,
        crate::ast::Type::Bool => r is Bool,
        crate::ast::Type::String => r is String,
        crate::ast::Type::Named(name) => r matches MendesType::Named(m) && m@ == name@,
        crate::ast::Type::Generic { name, args } => r matches MendesType::Generic {
            name: m,
            args: rs,
        } && m@ == name@ && rs@.len() == args@.len() && (forall|k: int|
            0 <= k < args@.len() ==> sem_of_ast(#[trigger] args@[k], rs@[k])),
        crate::ast::Type::Ref(inner) => r matches MendesType::Ref(x) && sem_of_ast(*inner, *x),
        crate::ast::Type::MutRef(inner) => r matches MendesType::MutRef(x) && sem_of_ast(
            *inner,
            *x,
        ),
        crate::ast::Type::Array(inner) => r matches MendesType::Array(x) && sem_of_ast(
            *inner,
            *x,
        ),
        crate::ast::Type::Tuple(types) => r matches MendesType::Tuple(rs) && rs@.len()
            == types@.len() && (forall|k: int|
            0 <= k < types@.len() ==> sem_of_ast(#[trigger] types@[k], rs@[k])),
        crate::ast::Type::Function { params, return_type } => r matches MendesType::Function {
            params: ps,
            ret,
        } && ps@.len() == params@.len() && (forall|k: int|
            0 <= k < params@.len() ==> sem_of_ast(#[trigger] params@[k], ps@[k])) && sem_of_ast(
            *return_type,
            *ret,
        ),
    }
}

#[via_fn]
proof fn sem_of_ast_decreases(t: crate::ast::Type, r: MendesType) {
    crate::ast::lemma_ast_children_shallower(t);
}

impl MendesType {
    /// Converts a syntactic type to a semantic type.
    pub fn from_ast(ast_type: &crate::ast::Type) -> (r: Self)
        ensures
            sem_of_ast(*ast_type, r),
        decreases crate::ast::ast_type_depth(*ast_type), 0int,
    {
        match ast_type {
            crate::ast::Type::Int => MendesType::Int,
            crate::ast::Type::Float => MendesType::Float,
            crate::ast::Type::Bool => MendesType::Bool,
            crate::ast::Type::String => MendesType::String,
            crate::ast::Type::Named(name) => MendesType::Named(name.clone()),
            crate::ast::Type::Generic { name, args } => MendesType::Generic {
                name: name.clone(),
                args: from_ast_list(args),
            },
            crate::ast::Type::Ref(inner) => MendesType::Ref(Box::new(Self::from_ast(inner))),
            crate::ast::Type::MutRef(inner) => MendesType::MutRef(Box::new(Self::from_ast(inner))),
            crate::ast::Type::Array(inner) => MendesType::Array(Box::new(Self::from_ast(inner))),
            crate::ast::Type::Tuple(types) => MendesType::Tuple(from_ast_list(types)),
            crate::ast::Type::Function { params, return_type } => MendesType::Function {
                params: from_ast_list(params),
                ret: Box::new(Self::from_ast(return_type)),
            },
        }
    }
}

/// Converts a list of syntactic types.
fn from_ast_list(v: &Vec<crate::ast::Type>) -> (r: Vec<MendesType>)
    ensures
        r@.len() == v@.len(),
        forall|k: int| 0 <= k < v@.len() ==> sem_of_ast(#[trigger] v@[k], r@[k]),
    decreases crate::ast::ast_types_depth(v@), 1int,
{
    let mut r: Vec<MendesType> = Vec::new();
    let mut i: usize = 0;
    while i < v.len()
        invariant
            i <= v@.len(),
            r@.len() == i,
            forall|k: int| 0 <= k < i ==> sem_of_ast(#[trigger] v@[k], r@[k]),
        decreases v@.len() - i,
    {
        proof {
            crate::ast::lemma_ast_types_depth(v@, i as int);
        }
        r.push(MendesType::from_ast(&v[i]));
        i = i + 1;
    }
    r
}

} // verus!
