//! The symbol table: a stack of scopes mapping names to declaration
//! metadata, with shadowing, innermost-first lookup, and a global scope that
//! is never popped.

use vstd::prelude::*;

use crate::assoc::{assoc_find, assoc_get};
use crate::span::Span;
use crate::types::MendesType;

verus! {

/// What kind of declaration a symbol stands for.
#[derive(Debug, Clone)]
pub enum SymbolKind {
    /// Local variable.
    Variable,
    /// Function parameter.
    Parameter,
    /// Function.
    Function {
        /// Generic type parameter names.
        generic_params: Vec<String>,
        params: Vec<(String, MendesType)>,
        return_type: MendesType,
        is_async: bool,
    },
    /// Struct.
    Struct {
        fields: Vec<(String, MendesType)>,
        /// Methods: name, parameters, return type, and the async flag.
        methods: Vec<(String, Vec<(String, MendesType)>, MendesType, bool)>,
        is_copy: bool,
    },
    /// Enum.
    Enum {
        /// Variants: name and associated types.
        variants: Vec<(String, Vec<MendesType>)>,
    },
    /// Struct field.
    Field,
    /// Database connection.
    Database { db_type: String, pool_size: u32 },
    /// Middleware.
    Middleware,
    /// Trait definition.
    Trait,
    /// Type alias.
    TypeAlias,
}

/// A symbol in the table.
#[derive(Debug, Clone)]
pub struct Symbol {
    /// Symbol name.
    pub name: String,
    /// What kind of declaration this is.
    pub kind: SymbolKind,
    /// Value type.
    pub ty: MendesType,
    /// Whether it is mutable.
    pub mutable: bool,
    /// Where it was defined.
    pub defined_at: Option<Span>,
}

impl Symbol {
    pub fn new(name: String, ty: MendesType, kind: SymbolKind, span: Span) -> (r: Self)
        ensures
            r == (Symbol { name, kind, ty, mutable: false, defined_at: Some(span) }),
    {
        Symbol { name, kind, ty, mutable: false, defined_at: Some(span) }
    }

    pub fn variable(name: String, ty: MendesType, mutable: bool, span: Span) -> (r: Self)
        ensures
            r == (Symbol {
                name,
                kind: SymbolKind::Variable,
                ty,
                mutable,
                defined_at: Some(span),
            }),
    {
        Symbol { name, kind: SymbolKind::Variable, ty, mutable, defined_at: Some(span) }
    }

    pub fn parameter(name: String, ty: MendesType, span: Span) -> (r: Self)
        ensures
            r == (Symbol {
                name,
                kind: SymbolKind::Parameter,
                ty,
                mutable: false,
                defined_at: Some(span),
            }),
    {
        Symbol { name, kind: SymbolKind::Parameter, ty, mutable: false, defined_at: Some(span) }
    }
}

/// One scope of symbols.
#[derive(Debug)]
pub struct Scope {
    symbols: Vec<(String, Symbol)>,
}

impl Scope {
    /// The symbol bound to a name in this scope.
    pub closed spec fn spec_lookup(&self, name: Seq<char>) -> Option<Symbol> {
        assoc_find(self.symbols@, name)
    }

    pub fn new() -> (r: Self)
        ensures
            forall|n: Seq<char>| r.spec_lookup(n) is None,
    {
        Scope { symbols: Vec::new() }
    }

    /// Binds a symbol under its name, returning the symbol it replaces.
    pub fn define(&mut self, symbol: Symbol) -> (r: Option<Symbol>)
        ensures
            final(self).spec_lookup(symbol.name@) == Some(symbol),
            forall|n: Seq<char>|
                n != symbol.name@ ==> final(self).spec_lookup(n) == old(self).spec_lookup(n),
            match r {
                Some(prev) => old(self).spec_lookup(symbol.name@) == Some(prev),
                None => old(self).spec_lookup(symbol.name@) is None,
            },
    {
        let ghost orig = old(self).symbols@;
        let mut j: usize = self.symbols.len();
        proof {
            assert(orig.subrange(0, orig.len() as int) =~= orig);
        }
        while j > 0
            invariant
                orig == old(self).symbols@,
                self.symbols@ == orig,
                j <= orig.len(),
                forall|l: int| j <= l < orig.len() ==> orig[l].0@ != symbol.name@,
                assoc_find(orig, symbol.name@) == assoc_find(
                    orig.subrange(0, j as int),
                    symbol.name@,
                ),
            decreases j,
        {
            proof {
                assert(orig.subrange(0, j as int).last() == orig[j - 1]);
                assert(orig.subrange(0, j as int).drop_last() =~= orig.subrange(0, j - 1));
            }
            if crate::text::string_is(&self.symbols[j - 1].0, symbol.name.as_str()) {
                let ghost gname = symbol.name@;
                let name_key = symbol.name.clone();
                let mut pair = (name_key, symbol);
                let ghost gpair = pair;
                core::mem::swap(&mut pair, &mut self.symbols[j - 1]);
                proof {
                    assert(self.symbols@ =~= orig.update(j - 1, gpair));
                    crate::ownership::lemma_assoc_find_at(orig, j - 1);
                    crate::assoc::lemma_assoc_find_update(orig, j - 1, gpair);
                }
                return Some(pair.1);
            }
            j = j - 1;
        }
        proof {
            assert(orig.subrange(0, 0) =~= Seq::<(String, Symbol)>::empty());
        }
        let name_key = symbol.name.clone();
        self.symbols.push((name_key, symbol));
        proof {
            assert(self.symbols@.drop_last() =~= orig);
        }
        None
    }

    /// Looks up a name in this scope alone, for mutation.
    pub fn lookup_mut(&mut self, name: &str) -> (r: Option<&mut Symbol>) {
        let mut i: usize = 0;
        while i < self.symbols.len()
            invariant
                i <= self.symbols@.len(),
            decreases self.symbols@.len() - i,
        {
            if crate::text::string_is(&self.symbols[i].0, name) {
                return Some(&mut self.symbols[i].1);
            }
            i = i + 1;
        }
        None
    }

    /// Looks up a name in this scope alone.
    pub fn lookup(&self, name: &str) -> (r: Option<&Symbol>)
        ensures
            match r {
                Some(sym) => self.spec_lookup(name@) == Some(*sym),
                None => self.spec_lookup(name@) is None,
            },
    {
        assoc_get(&self.symbols, name)
    }
}

/// The innermost binding of a name across a stack of symbol scopes.
pub open spec fn symbol_scopes_lookup(scopes: Seq<Scope>, name: Seq<char>) -> Option<Symbol>
    decreases scopes.len(),
{
    if scopes.len() == 0 {
        None
    } else {
        match scopes.last().spec_lookup(name) {
            Some(sym) => Some(sym),
            None => symbol_scopes_lookup(scopes.drop_last(), name),
        }
    }
}

/// Symbol table with support for nested scopes.
#[derive(Debug)]
pub struct SymbolTable {
    /// Scope stack; the last scope is the current one.
    scopes: Vec<Scope>,
}

impl SymbolTable {
    /// The scope stack, outermost first.
    pub closed spec fn spec_scopes(&self) -> Seq<Scope> {
        self.scopes@
    }

    /// The innermost binding of a name.
    pub open spec fn spec_lookup(&self, name: Seq<char>) -> Option<Symbol> {
        symbol_scopes_lookup(self.spec_scopes(), name)
    }

    /// The binding of a name in the current scope alone.
    pub open spec fn spec_lookup_current(&self, name: Seq<char>) -> Option<Symbol> {
        if self.spec_scopes().len() > 0 {
            self.spec_scopes().last().spec_lookup(name)
        } else {
            None
        }
    }

    /// The number of open scopes.
    pub open spec fn spec_depth(&self) -> nat {
        self.spec_scopes().len()
    }

    pub fn new() -> (r: Self)
        ensures
            r.spec_depth() == 1,
            forall|n: Seq<char>| r.spec_lookup(n) is None,
    {
        let mut scopes: Vec<Scope> = Vec::new();
        let global = Scope::new();
        scopes.push(global);
        let r = SymbolTable { scopes };
        proof {
            assert forall|n: Seq<char>| r.spec_lookup(n) is None by {
                assert(r.scopes@.len() == 1);
                assert(r.scopes@.last() == global);
                assert(r.scopes@.last().spec_lookup(n) is None);
                assert(r.scopes@.drop_last() =~= Seq::<Scope>::empty());
                assert(symbol_scopes_lookup(r.scopes@.drop_last(), n) is None);
            }
        }
        r
    }

    /// Enters a new scope: the stack grows by one empty scope, and every
    /// lookup is unchanged.
    pub fn push_scope(&mut self)
        ensures
            final(self).spec_depth() == old(self).spec_depth() + 1,
            final(self).spec_scopes().drop_last() == old(self).spec_scopes(),
            forall|n: Seq<char>| final(self).spec_lookup(n) == old(self).spec_lookup(n),
            forall|n: Seq<char>| final(self).spec_lookup_current(n) is None,
    {
        let fresh = Scope::new();
        self.scopes.push(fresh);
        proof {
            assert(self.scopes@.drop_last() =~= old(self).scopes@);
            assert forall|n: Seq<char>|
                final(self).spec_lookup(n) == old(self).spec_lookup(n) by {
                assert(self.scopes@.last().spec_lookup(n) is None);
            }
        }
    }

    /// Exits the current scope: the stack loses its last scope, so the
    /// names it bound become invisible and any bindings they shadowed are
    /// visible again. The global scope is never popped.
    pub fn pop_scope(&mut self)
        ensures
            old(self).spec_depth() > 1 ==> {
                &&& final(self).spec_scopes() == old(self).spec_scopes().drop_last()
                &&& final(self).spec_depth() == old(self).spec_depth() - 1
                &&& forall|n: Seq<char>|
                    final(self).spec_lookup(n) == symbol_scopes_lookup(
                        old(self).spec_scopes().drop_last(),
                        n,
                    )
            },
            old(self).spec_depth() <= 1 ==> *final(self) == *old(self),
    {
        if self.scopes.len() > 1 {
            self.scopes.pop();
        }
    }

    /// Defines a symbol in the current scope, shadowing outer bindings;
    /// every scope but the current one is untouched.
    pub fn define(&mut self, symbol: Symbol) -> (r: Option<Symbol>)
        ensures
            final(self).spec_depth() == old(self).spec_depth(),
            old(self).spec_depth() > 0 ==> {
                &&& final(self).spec_scopes().drop_last() == old(self).spec_scopes().drop_last()
                &&& final(self).spec_lookup(symbol.name@) == Some(symbol)
                &&& final(self).spec_lookup_current(symbol.name@) == Some(symbol)
                &&& forall|n: Seq<char>|
                    n != symbol.name@ ==> final(self).spec_lookup(n) == old(self).spec_lookup(n)
                &&& forall|n: Seq<char>|
                    n != symbol.name@ ==> final(self).spec_lookup_current(n) == old(
                        self,
                    ).spec_lookup_current(n)
                &&& match r {
                    Some(prev) => old(self).spec_lookup_current(symbol.name@) == Some(prev),
                    None => old(self).spec_lookup_current(symbol.name@) is None,
                }
            },
    {
        let n = self.scopes.len();
        if n == 0 {
            return None;
        }
        let ghost orig = self.scopes@;
        let ghost gname = symbol.name@;
        let ghost gsym = symbol;
        let r = self.scopes[n - 1].define(symbol);
        proof {
            assert(self.scopes@.last().spec_lookup(gname) == Some(gsym));
            assert forall|k: Seq<char>|
                k != gname implies final(self).spec_lookup(k) == old(self).spec_lookup(k) by {
                assert(self.scopes@.drop_last() =~= orig.drop_last());
                assert(self.scopes@.last().spec_lookup(k) == orig.last().spec_lookup(k));
            }
        }
        r
    }

    /// Looks a symbol up in all scopes, from innermost to outermost.
    pub fn lookup(&self, name: &str) -> (r: Option<&Symbol>)
        ensures
            match r {
                Some(sym) => self.spec_lookup(name@) == Some(*sym),
                None => self.spec_lookup(name@) is None,
            },
    {
        let n = self.scopes.len();
        let mut i: usize = n;
        proof {
            assert(self.scopes@.subrange(0, n as int) =~= self.scopes@);
        }
        while i > 0
            invariant
                i <= n,
                n == self.scopes@.len(),
                symbol_scopes_lookup(self.scopes@, name@) == symbol_scopes_lookup(
                    self.scopes@.subrange(0, i as int),
                    name@,
                ),
            decreases i,
        {
            proof {
                assert(self.scopes@.subrange(0, i as int).last() == self.scopes@[i - 1]);
                assert(self.scopes@.subrange(0, i as int).drop_last() =~= self.scopes@.subrange(
                    0,
                    i - 1,
                ));
            }
            match self.scopes[i - 1].lookup(name) {
                Some(sym) => {
                    return Some(sym);
                },
                None => {},
            }
            i = i - 1;
        }
        proof {
            assert(self.scopes@.subrange(0, 0) =~= Seq::<Scope>::empty());
        }
        None
    }

    /// Looks a symbol up for mutation, from innermost to outermost.
    pub fn lookup_mut(&mut self, name: &str) -> (r: Option<&mut Symbol>) {
        let mut i: usize = self.scopes.len();
        while i > 0
            invariant
                i <= self.scopes@.len(),
            decreases i,
        {
            let found = match self.scopes[i - 1].lookup(name) {
                Some(_) => true,
                None => false,
            };
            if found {
                return self.scopes[i - 1].lookup_mut(name);
            }
            i = i - 1;
        }
        None
    }

    /// Looks a name up in the current scope only.
    pub fn lookup_current_scope(&self, name: &str) -> (r: Option<&Symbol>)
        ensures
            match r {
                Some(sym) => self.spec_lookup_current(name@) == Some(*sym),
                None => self.spec_lookup_current(name@) is None,
            },
    {
        let n = self.scopes.len();
        if n == 0 {
            return None;
        }
        self.scopes[n - 1].lookup(name)
    }

    /// Checks whether a name is defined in the current scope.
    pub fn is_defined_in_current_scope(&self, name: &str) -> (r: bool)
        ensures
            r == (self.spec_lookup_current(name@) is Some),
    {
        match self.lookup_current_scope(name) {
            Some(_) => true,
            None => false,
        }
    }

    /// The depth of the scope stack.
    pub fn depth(&self) -> (r: usize)
        ensures
            r == self.spec_depth(),
    {
        self.scopes.len()
    }
}

impl Default for SymbolTable {
    /// A table with only the global scope.
    fn default() -> (r: Self)
        ensures
            r.spec_depth() == 1,
            forall|n: Seq<char>| r.spec_lookup(n) is None,
    {
        SymbolTable::new()
    }
}

} // verus!
