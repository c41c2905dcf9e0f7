//! Ownership and borrow checking: a per-variable state machine layered on a
//! scope stack, with Rust-like rules. Values are moved by default (except
//! primitives, which are copied), may be borrowed shared or exclusively, and
//! references may not cross an await point.

use vstd::prelude::*;

use crate::assoc::{assoc_find, assoc_set};
use crate::diagnostic::{Diagnostic, ErrorCode};
use crate::diagnostics::Diagnostics;
use crate::span::Span;
use crate::text::{cat3, string_is};
use crate::types::MendesType;

verus! {

/// State of a variable with respect to ownership.
#[derive(Debug, Clone)]
pub enum OwnershipState {
    /// The variable owns its value and is available.
    Owned,
    /// The value was moved elsewhere.
    Moved { moved_at: Span },
    /// The value is immutably borrowed.
    Borrowed { borrow_count: u32, borrowed_at: Vec<Span> },
    /// The value is mutably borrowed.
    MutBorrowed { borrowed_at: Span },
}

/// Ownership information for one variable.
#[derive(Debug, Clone)]
pub struct OwnershipInfo {
    /// Variable name.
    pub name: String,
    /// Variable type.
    pub ty: MendesType,
    /// Current state.
    pub state: OwnershipState,
    /// Whether the variable was declared mutable.
    pub is_mutable: bool,
    /// Where the variable was defined.
    pub defined_at: Span,
}

impl OwnershipInfo {
    pub fn new(name: String, ty: MendesType, is_mutable: bool, defined_at: Span) -> (r: Self)
        ensures
            r == (OwnershipInfo {
                name,
                ty,
                state: OwnershipState::Owned,
                is_mutable,
                defined_at,
            }),
    {
        OwnershipInfo { name, ty, state: OwnershipState::Owned, is_mutable, defined_at }
    }

    /// Checks whether the variable can be read.
    pub fn can_use(&self) -> (r: bool)
        ensures
            r == spec_can_use(*self),
    {
        !matches!(self.state, OwnershipState::Moved { .. })
    }

    /// Checks whether the variable can be moved.
    pub fn can_move(&self) -> (r: bool)
        ensures
            r == (self.state is Owned),
    {
        matches!(self.state, OwnershipState::Owned)
    }

    /// Checks whether the variable can be immutably borrowed.
    pub fn can_borrow(&self) -> (r: bool)
        ensures
            r == spec_can_borrow(*self),
    {
        matches!(self.state, OwnershipState::Owned | OwnershipState::Borrowed { .. })
    }

    /// Checks whether the variable can be mutably borrowed.
    pub fn can_borrow_mut(&self) -> (r: bool)
        ensures
            r == spec_can_borrow_mut(*self),
    {
        matches!(self.state, OwnershipState::Owned) && self.is_mutable
    }
}

/// A variable can be read unless its value was moved away.
pub open spec fn spec_can_use(info: OwnershipInfo) -> bool {
    !(info.state is Moved)
}

/// A shared borrow is allowed while the variable is owned or already shared.
pub open spec fn spec_can_borrow(info: OwnershipInfo) -> bool {
    info.state is Owned || info.state is Borrowed
}

/// An exclusive borrow is allowed only of an owned, mutable variable.
pub open spec fn spec_can_borrow_mut(info: OwnershipInfo) -> bool {
    info.state is Owned && info.is_mutable
}

/// The state of a variable after a move: primitives of copy type stay as
/// they are; everything else becomes `Moved`.
pub open spec fn spec_after_move(info: OwnershipInfo, at: Span) -> OwnershipInfo {
    if info.ty.spec_is_copy() {
        info
    } else {
        OwnershipInfo { state: OwnershipState::Moved { moved_at: at }, ..info }
    }
}

/// How a variable's record steps under a successful shared borrow: a first
/// borrow starts the count at one; a further borrow increments the count and
/// records the new site; nothing else about the record changes.
pub open spec fn spec_borrow_step(pre: OwnershipInfo, post: OwnershipInfo, at: Span) -> bool {
    &&& post.name == pre.name && post.ty == pre.ty && post.is_mutable == pre.is_mutable
        && post.defined_at == pre.defined_at
    &&& match pre.state {
        OwnershipState::Owned => post.state matches OwnershipState::Borrowed {
            borrow_count,
            borrowed_at,
        } && borrow_count == 1 && borrowed_at@ =~= seq![at],
        OwnershipState::Borrowed { borrow_count, borrowed_at } => post.state
            matches OwnershipState::Borrowed { borrow_count: c2, borrowed_at: s2 } && c2 == (
        if borrow_count < 0xffff_ffffu32 {
            (borrow_count + 1) as u32
        } else {
            borrow_count
        }) && s2@ =~= borrowed_at@.push(at),
        _ => post == pre,
    }
}

/// The record of a variable after a successful exclusive borrow.
pub open spec fn spec_after_borrow_mut(info: OwnershipInfo, at: Span) -> OwnershipInfo {
    OwnershipInfo { state: OwnershipState::MutBorrowed { borrowed_at: at }, ..info }
}

/// The site a failed exclusive borrow names as its conflict: the
/// definition site of an immutable variable, the first shared borrow, the
/// earlier exclusive borrow, or the move.
pub open spec fn spec_mut_conflict_site(info: OwnershipInfo, at: Span) -> Span {
    if !info.is_mutable {
        info.defined_at
    } else {
        match info.state {
            OwnershipState::Borrowed { borrow_count: _, borrowed_at } => if borrowed_at@.len()
                > 0 {
                borrowed_at@[0]
            } else {
                at
            },
            OwnershipState::MutBorrowed { borrowed_at } => borrowed_at,
            OwnershipState::Moved { moved_at } => moved_at,
            OwnershipState::Owned => at,
        }
    }
}

/// Shared borrows stack, while an exclusive borrow excludes every other
/// borrow, shared or exclusive, until it is released: after a mutable
/// borrow, neither a second mutable borrow nor a shared one is allowed; any
/// number of successive shared borrows is allowed; and after a shared
/// borrow, a mutable borrow is not.
pub proof fn lemma_borrow_exclusivity(pre: OwnershipInfo, post: OwnershipInfo, at: Span)
    ensures
        spec_can_borrow_mut(pre) ==> !spec_can_borrow_mut(spec_after_borrow_mut(pre, at)),
        spec_can_borrow_mut(pre) ==> !spec_can_borrow(spec_after_borrow_mut(pre, at)),
        spec_can_borrow(pre) && spec_borrow_step(pre, post, at) ==> spec_can_borrow(post),
        spec_can_borrow(pre) && spec_borrow_step(pre, post, at) ==> !spec_can_borrow_mut(post),
{
}

/// Moving a variable of a copy type leaves it untouched, so it never reaches
/// the `Moved` state and later reads never fail.
pub proof fn lemma_copy_types_never_move(info: OwnershipInfo, at: Span)
    requires
        info.ty.spec_is_copy(),
    ensures
        spec_after_move(info, at) == info,
        spec_can_use(info) ==> spec_can_use(spec_after_move(info, at)),
{
}

/// One scope of tracked variables.
#[derive(Debug)]
pub struct OwnershipScope {
    /// The variables tracked in this scope.
    pub variables: Vec<(String, OwnershipInfo)>,
    /// Active borrows taken in this scope.
    pub active_borrows: Vec<(String, bool, Span)>,
}

impl OwnershipScope {
    pub fn new() -> (r: Self)
        ensures
            r.variables@ =~= Seq::<(String, OwnershipInfo)>::empty(),
            r.active_borrows@ =~= Seq::<(String, bool, Span)>::empty(),
    {
        OwnershipScope { variables: Vec::new(), active_borrows: Vec::new() }
    }
}

/// The innermost binding of a name across a stack of scopes.
pub open spec fn scopes_lookup(scopes: Seq<OwnershipScope>, name: Seq<char>) -> Option<
    OwnershipInfo,
>
    decreases scopes.len(),
{
    if scopes.len() == 0 {
        None
    } else {
        match assoc_find(scopes.last().variables@, name) {
            Some(info) => Some(info),
            None => scopes_lookup(scopes.drop_last(), name),
        }
    }
}

/// Replacing one scope with another that binds exactly one name differently
/// changes only that name's lookup, provided no inner scope binds it.
proof fn lemma_scopes_lookup_update(
    scopes: Seq<OwnershipScope>,
    scopes2: Seq<OwnershipScope>,
    si: int,
    name: Seq<char>,
    info: OwnershipInfo,
)
    requires
        0 <= si < scopes.len(),
        scopes2.len() == scopes.len(),
        forall|l: int| 0 <= l < scopes.len() && l != si ==> scopes2[l] == scopes[l],
        forall|l: int|
            si < l < scopes.len() ==> assoc_find(#[trigger] scopes[l].variables@, name) is None,
        assoc_find(scopes2[si].variables@, name) == Some(info),
        forall|k: Seq<char>|
            k != name ==> assoc_find(scopes2[si].variables@, k) == assoc_find(
                scopes[si].variables@,
                k,
            ),
    ensures
        scopes_lookup(scopes2, name) == Some(info),
        forall|k: Seq<char>| k != name ==> scopes_lookup(scopes2, k) == scopes_lookup(scopes, k),
    decreases scopes.len(),
{
    if si == scopes.len() - 1 {
        assert(scopes2.last() == scopes2[si]);
        assert(scopes2.drop_last() =~= scopes.drop_last());
        assert(scopes_lookup(scopes2, name) == Some(info));
        assert forall|k: Seq<char>|
            k != name implies scopes_lookup(scopes2, k) == scopes_lookup(scopes, k) by {
            assert(assoc_find(scopes2.last().variables@, k) == assoc_find(
                scopes.last().variables@,
                k,
            ));
        }
    } else {
        assert(scopes2.last() == scopes.last());
        assert(assoc_find(scopes2.last().variables@, name) is None);
        assert(scopes2.drop_last()[si] == scopes2[si]);
        assert forall|l: int|
            0 <= l < scopes.drop_last().len() && l != si implies scopes2.drop_last()[l]
            == scopes.drop_last()[l] by {
            assert(scopes.drop_last()[l] == scopes[l]);
        }
        assert forall|l: int|
            si < l < scopes.drop_last().len() implies assoc_find(
            #[trigger] scopes.drop_last()[l].variables@,
            name,
        ) is None by {
            assert(scopes.drop_last()[l] == scopes[l]);
        }
        lemma_scopes_lookup_update(scopes.drop_last(), scopes2.drop_last(), si, name, info);
        assert(scopes_lookup(scopes2, name) == scopes_lookup(scopes2.drop_last(), name));
        assert forall|k: Seq<char>|
            k != name implies scopes_lookup(scopes2, k) == scopes_lookup(scopes, k) by {
            assert(scopes_lookup(scopes2.drop_last(), k) == scopes_lookup(scopes.drop_last(), k));
        }
    }
}

/// The ownership checker: a stack of scopes of variable states, plus the
/// async-context tracking for borrows that would cross an await.
#[derive(Debug)]
pub struct OwnershipChecker {
    /// Scope stack; the last scope is the innermost.
    scopes: Vec<OwnershipScope>,
    /// Accumulated diagnostics.
    diagnostics: Diagnostics,
    /// Whether checking is inside an async context.
    in_async_context: bool,
    /// Borrows taken since entering the async context, pending the next
    /// await.
    borrows_before_await: Vec<(String, Span)>,
}

impl OwnershipChecker {
    /// The scope stack, outermost first.
    pub closed spec fn spec_scopes(&self) -> Seq<OwnershipScope> {
        self.scopes@
    }

    /// The innermost ownership information recorded for a name.
    pub open spec fn spec_lookup(&self, name: Seq<char>) -> Option<OwnershipInfo> {
        scopes_lookup(self.spec_scopes(), name)
    }

    /// The number of open scopes.
    pub open spec fn spec_depth(&self) -> nat {
        self.spec_scopes().len()
    }

    /// The diagnostics recorded so far.
    pub closed spec fn spec_diagnostics(&self) -> Seq<Diagnostic> {
        self.diagnostics@
    }

    /// Whether checking is inside an async context.
    pub closed spec fn spec_in_async(&self) -> bool {
        self.in_async_context
    }

    /// The pending borrows that the next await will flag.
    pub closed spec fn spec_pending_borrows(&self) -> Seq<(String, Span)> {
        self.borrows_before_await@
    }

    pub fn new() -> (r: Self)
        ensures
            r.spec_depth() == 1,
            forall|n: Seq<char>| r.spec_lookup(n) is None,
            r.spec_diagnostics() =~= Seq::<Diagnostic>::empty(),
            !r.spec_in_async(),
            r.spec_pending_borrows() =~= Seq::<(String, Span)>::empty(),
    {
        let mut scopes: Vec<OwnershipScope> = Vec::new();
        let s0 = OwnershipScope::new();
        scopes.push(s0);
        let r = OwnershipChecker {
            scopes,
            diagnostics: Diagnostics::new(),
            in_async_context: false,
            borrows_before_await: Vec::new(),
        };
        proof {
            assert forall|n: Seq<char>| r.spec_lookup(n) is None by {
                assert(r.scopes@.len() == 1);
                assert(r.scopes@.last().variables@.len() == 0);
                assert(assoc_find(r.scopes@.last().variables@, n) is None);
                assert(r.scopes@.drop_last() =~= Seq::<OwnershipScope>::empty());
                assert(scopes_lookup(r.scopes@.drop_last(), n) is None);
            }
        }
        r
    }

    /// Moves the accumulated diagnostics out.
    pub fn take_diagnostics(&mut self) -> (r: Diagnostics)
        ensures
            r@ == old(self).spec_diagnostics(),
            final(self).spec_diagnostics() =~= Seq::<Diagnostic>::empty(),
    {
        self.diagnostics.take()
    }

    /// Enters a new scope: the stack grows by one empty scope, and every
    /// lookup is unchanged.
    pub fn push_scope(&mut self)
        ensures
            final(self).spec_depth() == old(self).spec_depth() + 1,
            final(self).spec_scopes().drop_last() == old(self).spec_scopes(),
            forall|n: Seq<char>| final(self).spec_lookup(n) == old(self).spec_lookup(n),
            final(self).spec_diagnostics() == old(self).spec_diagnostics(),
            final(self).spec_in_async() == old(self).spec_in_async(),
            final(self).spec_pending_borrows() == old(self).spec_pending_borrows(),
    {
        self.scopes.push(OwnershipScope::new());
        proof {
            assert(self.scopes@.drop_last() =~= old(self).scopes@);
            assert forall|n: Seq<char>|
                final(self).spec_lookup(n) == old(self).spec_lookup(n) by {
                assert(assoc_find(self.scopes@.last().variables@, n) is None);
            }
        }
    }

    /// Exits the current scope: the stack loses its last scope, so the
    /// variables it tracked are dropped and any records they shadowed are
    /// visible again.
    pub fn pop_scope(&mut self)
        ensures
            old(self).spec_depth() > 0 ==> {
                &&& final(self).spec_scopes() == old(self).spec_scopes().drop_last()
                &&& final(self).spec_depth() == old(self).spec_depth() - 1
                &&& forall|n: Seq<char>|
                    final(self).spec_lookup(n) == scopes_lookup(
                        old(self).spec_scopes().drop_last(),
                        n,
                    )
            },
            old(self).spec_depth() == 0 ==> *final(self) == *old(self),
            final(self).spec_diagnostics() == old(self).spec_diagnostics(),
            final(self).spec_in_async() == old(self).spec_in_async(),
    {
        if self.scopes.len() > 0 {
            self.scopes.pop();
        }
    }

    /// Defines a new variable in the current scope, owned and unmoved;
    /// every scope but the current one is untouched.
    pub fn define(&mut self, name: String, ty: MendesType, is_mutable: bool, span: Span)
        ensures
            old(self).spec_depth() > 0 ==> {
                &&& final(self).spec_scopes().drop_last() == old(self).spec_scopes().drop_last()
                &&& final(self).spec_lookup(name@) matches Some(info) && info.name == name
                    && info.ty == ty && info.state is Owned && info.is_mutable == is_mutable
                    && info.defined_at == span
                &&& forall|n: Seq<char>|
                    n != name@ ==> final(self).spec_lookup(n) == old(self).spec_lookup(n)
            },
            final(self).spec_depth() == old(self).spec_depth(),
            final(self).spec_diagnostics() == old(self).spec_diagnostics(),
            final(self).spec_in_async() == old(self).spec_in_async(),
            final(self).spec_pending_borrows() == old(self).spec_pending_borrows(),
    {
        let n = self.scopes.len();
        if n == 0 {
            return;
        }
        let ghost orig = self.scopes@;
        let ghost gname = name@;
        let info = OwnershipInfo::new(name.clone(), ty, is_mutable, span);
        let ghost ginfo = info;
        assoc_set(&mut self.scopes[n - 1].variables, name, info);
        proof {
            assert(self.scopes@.last() == self.scopes@[n - 1]);
            assert(assoc_find(self.scopes@.last().variables@, gname) == Some(ginfo));
            assert forall|k: Seq<char>|
                k != gname implies final(self).spec_lookup(k) == old(self).spec_lookup(k) by {
                assert(self.scopes@.drop_last() =~= orig.drop_last());
                assert(assoc_find(self.scopes@.last().variables@, k) == assoc_find(
                    orig.last().variables@,
                    k,
                ));
            }
        }
    }

    /// Looks up the ownership information for a variable.
    pub fn lookup(&self, name: &str) -> (r: Option<&OwnershipInfo>)
        ensures
            match r {
                Some(info) => self.spec_lookup(name@) == Some(*info),
                None => self.spec_lookup(name@) is None,
            },
    {
        let n = self.scopes.len();
        let mut i: usize = n;
        proof {
            assert(self.scopes@.subrange(0, n as int) =~= self.scopes@);
        }
        while i > 0
            invariant
                i <= n,
                n == self.scopes@.len(),
                scopes_lookup(self.scopes@, name@) == scopes_lookup(
                    self.scopes@.subrange(0, i as int),
                    name@,
                ),
            decreases i,
        {
            proof {
                assert(self.scopes@.subrange(0, i as int).last() == self.scopes@[i - 1]);
                assert(self.scopes@.subrange(0, i as int).drop_last() =~= self.scopes@.subrange(
                    0,
                    i - 1,
                ));
            }
            match crate::assoc::assoc_get(&self.scopes[i - 1].variables, name) {
                Some(info) => {
                    return Some(info);
                },
                None => {},
            }
            i = i - 1;
        }
        proof {
            assert(self.scopes@.subrange(0, 0) =~= Seq::<OwnershipScope>::empty());
        }
        None
    }

    /// Finds the position of the innermost binding of a name: the scope
    /// index and the index of its latest entry for the name.
    fn locate(&self, name: &str) -> (r: Option<(usize, usize)>)
        ensures
            match r {
                Some((si, vi)) => {
                    &&& si < self.scopes@.len()
                    &&& vi < self.scopes@[si as int].variables@.len()
                    &&& self.scopes@[si as int].variables@[vi as int].0@ == name@
                    &&& forall|l: int|
                        vi < l < self.scopes@[si as int].variables@.len()
                            ==> self.scopes@[si as int].variables@[l].0@ != name@
                    &&& forall|l: int|
                        si < l < self.scopes@.len() ==> assoc_find(
                            #[trigger] self.scopes@[l].variables@,
                            name@,
                        ) is None
                    &&& self.spec_lookup(name@) == Some(
                        self.scopes@[si as int].variables@[vi as int].1,
                    )
                },
                None => self.spec_lookup(name@) is None,
            },
    {
        let n = self.scopes.len();
        let mut i: usize = n;
        proof {
            assert(self.scopes@.subrange(0, n as int) =~= self.scopes@);
        }
        while i > 0
            invariant
                i <= n,
                n == self.scopes@.len(),
                scopes_lookup(self.scopes@, name@) == scopes_lookup(
                    self.scopes@.subrange(0, i as int),
                    name@,
                ),
                forall|l: int|
                    i <= l < self.scopes@.len() ==> assoc_find(
                        #[trigger] self.scopes@[l].variables@,
                        name@,
                    ) is None,
            decreases i,
        {
            proof {
                assert(self.scopes@.subrange(0, i as int).last() == self.scopes@[i - 1]);
                assert(self.scopes@.subrange(0, i as int).drop_last() =~= self.scopes@.subrange(
                    0,
                    i - 1,
                ));
            }
            let ghost gvars = self.scopes@[i - 1].variables@;
            let mut j: usize = self.scopes[i - 1].variables.len();
            proof {
                assert(gvars.subrange(0, gvars.len() as int) =~= gvars);
            }
            while j > 0
                invariant
                    0 < i <= n,
                    n == self.scopes@.len(),
                    gvars == self.scopes@[i - 1].variables@,
                    j <= gvars.len(),
                    scopes_lookup(self.scopes@, name@) == scopes_lookup(
                        self.scopes@.subrange(0, i as int),
                        name@,
                    ),
                    forall|l: int|
                        i <= l < self.scopes@.len() ==> assoc_find(
                            #[trigger] self.scopes@[l].variables@,
                            name@,
                        ) is None,
                    assoc_find(gvars, name@) == assoc_find(gvars.subrange(0, j as int), name@),
                    forall|l: int| j <= l < gvars.len() ==> gvars[l].0@ != name@,
                decreases j,
            {
                proof {
                    assert(gvars.subrange(0, j as int).last() == gvars[j - 1]);
                    assert(gvars.subrange(0, j as int).drop_last() =~= gvars.subrange(0, j - 1));
                }
                if string_is(&self.scopes[i - 1].variables[j - 1].0, name) {
                    proof {
                        lemma_assoc_find_at(gvars, j - 1);
                        assert(self.scopes@.subrange(0, i as int).last() == self.scopes@[
                            i - 1
                        ]);
                        assert(scopes_lookup(self.scopes@, name@) == Some(gvars[j - 1].1));
                    }
                    return Some((i - 1, j - 1));
                }
                j = j - 1;
            }
            proof {
                assert(gvars.subrange(0, 0) =~= Seq::<(String, OwnershipInfo)>::empty());
            }
            i = i - 1;
        }
        proof {
            assert(self.scopes@.subrange(0, 0) =~= Seq::<OwnershipScope>::empty());
        }
        None
    }

    /// Sets the state of the innermost binding found by `locate`.
    fn set_state_at(&mut self, si: usize, vi: usize, state: OwnershipState)
        requires
            si < old(self).scopes@.len(),
            vi < old(self).scopes@[si as int].variables@.len(),
            forall|l: int|
                vi < l < old(self).scopes@[si as int].variables@.len() ==> old(
                    self,
                ).scopes@[si as int].variables@[l].0@ != old(
                    self,
                ).scopes@[si as int].variables@[vi as int].0@,
            forall|l: int|
                si < l < old(self).scopes@.len() ==> assoc_find(
                    #[trigger] old(self).scopes@[l].variables@,
                    old(self).scopes@[si as int].variables@[vi as int].0@,
                ) is None,
        ensures
            ({
                let name = old(self).scopes@[si as int].variables@[vi as int].0@;
                let oldinfo = old(self).scopes@[si as int].variables@[vi as int].1;
                &&& final(self).spec_lookup(name) == Some(
                    OwnershipInfo { state, ..oldinfo },
                )
                &&& forall|n: Seq<char>|
                    n != name ==> final(self).spec_lookup(n) == old(self).spec_lookup(n)
            }),
            final(self).spec_depth() == old(self).spec_depth(),
            final(self).spec_diagnostics() == old(self).spec_diagnostics(),
            final(self).spec_in_async() == old(self).spec_in_async(),
            final(self).spec_pending_borrows() == old(self).spec_pending_borrows(),
    {
        let ghost orig = self.scopes@;
        let ghost name = orig[si as int].variables@[vi as int].0@;
        let ghost oldinfo = orig[si as int].variables@[vi as int].1;
        let ghost newinfo = OwnershipInfo { state, ..oldinfo };
        self.scopes[si].variables[vi].1.state = state;
        proof {
            let vars2 = self.scopes@[si as int].variables@;
            let vars = orig[si as int].variables@;
            assert(vars2 =~= vars.update(vi as int, (vars[vi as int].0, newinfo)));
            lemma_assoc_find_at(vars, vi as int);
            lemma_assoc_find_update_pair(vars, vi as int, newinfo);
            lemma_scopes_lookup_update(orig, self.scopes@, si as int, name, newinfo);
        }
    }

    /// Marks a variable as moved; variables of copy types stay usable.
    pub fn mark_moved(&mut self, name: &str, moved_at: Span)
        ensures
            match old(self).spec_lookup(name@) {
                Some(info) => {
                    &&& final(self).spec_lookup(name@) == Some(spec_after_move(info, moved_at))
                    &&& info.ty.spec_is_copy() ==> *final(self) == *old(self)
                    &&& forall|n: Seq<char>|
                        n != name@ ==> final(self).spec_lookup(n) == old(self).spec_lookup(n)
                },
                None => *final(self) == *old(self),
            },
            final(self).spec_depth() == old(self).spec_depth(),
            final(self).spec_diagnostics() == old(self).spec_diagnostics(),
            final(self).spec_in_async() == old(self).spec_in_async(),
            final(self).spec_pending_borrows() == old(self).spec_pending_borrows(),
    {
        match self.locate(name) {
            Some((si, vi)) => {
                if self.scopes[si].variables[vi].1.ty.is_copy() {
                    return;
                }
                self.set_state_at(si, vi, OwnershipState::Moved { moved_at });
            },
            None => {},
        }
    }
}

impl OwnershipChecker {
    /// Registers an immutable borrow of a variable.
    pub fn borrow(&mut self, name: &str, borrow_span: Span) -> (r: Result<(), Diagnostic>)
        ensures
            final(self).spec_depth() == old(self).spec_depth(),
            final(self).spec_diagnostics() == old(self).spec_diagnostics(),
            final(self).spec_in_async() == old(self).spec_in_async(),
            match old(self).spec_lookup(name@) {
                Some(info) => {
                    &&& r is Ok <==> spec_can_borrow(info)
                    &&& spec_can_borrow(info) ==> {
                        &&& final(self).spec_lookup(name@) matches Some(post)
                            && spec_borrow_step(info, post, borrow_span)
                        &&& forall|n: Seq<char>|
                            n != name@ ==> final(self).spec_lookup(n) == old(self).spec_lookup(n)
                        &&& if old(self).spec_in_async() {
                            final(self).spec_pending_borrows().len() == old(
                                self,
                            ).spec_pending_borrows().len() + 1
                                && final(self).spec_pending_borrows().drop_last() == old(
                                self,
                            ).spec_pending_borrows()
                                && final(self).spec_pending_borrows().last().0@ == name@
                                && final(self).spec_pending_borrows().last().1 == borrow_span
                        } else {
                            final(self).spec_pending_borrows() == old(self).spec_pending_borrows()
                        }
                    }
                    &&& info.state is MutBorrowed ==> (*final(self) == *old(self) && (r
                        matches Err(d) && d.level is Error && d.code == Some(
                        ErrorCode { category: 'O', number: 3u16 },
                    ) && d.labels@.len() == 2 && d.labels@[0].span == borrow_span
                        && d.labels@[0].primary && !d.labels@[1].primary && (info.state
                        matches OwnershipState::MutBorrowed { borrowed_at } ==> d.labels@[1].span
                        == borrowed_at)))
                    &&& info.state is Moved ==> (*final(self) == *old(self) && (r matches Err(d)
                        && d.level is Error && d.code == Some(
                        ErrorCode { category: 'O', number: 1u16 },
                    ) && d.labels@.len() == 2 && d.labels@[0].span == borrow_span
                        && d.labels@[0].primary && !d.labels@[1].primary && (info.state
                        matches OwnershipState::Moved { moved_at } ==> d.labels@[1].span
                        == moved_at)))
                },
                None => r is Ok && *final(self) == *old(self),
            },
    {
        match self.locate(name) {
            Some((si, vi)) => {
                let entry = &self.scopes[si].variables[vi].1;
                match &entry.state {
                    OwnershipState::Owned => {
                        let mut sites: Vec<Span> = Vec::new();
                        sites.push(borrow_span);
                        assert(sites@ =~= seq![borrow_span]);
                        self.set_state_at(
                            si,
                            vi,
                            OwnershipState::Borrowed { borrow_count: 1, borrowed_at: sites },
                        );
                        if self.in_async_context {
                            let ghost oldpending = self.borrows_before_await@;
                            self.borrows_before_await.push((name.to_owned(), borrow_span));
                            proof {
                                assert(self.borrows_before_await@.drop_last() =~= oldpending);
                            }
                        }
                        Ok(())
                    },
                    OwnershipState::Borrowed { borrow_count, borrowed_at } => {
                        let count: u32 = *borrow_count;
                        let new_count: u32 = if count < 0xffff_ffffu32 {
                            count + 1
                        } else {
                            count
                        };
                        let mut sites = copy_spans(borrowed_at);
                        let ghost oldsites = borrowed_at@;
                        sites.push(borrow_span);
                        assert(sites@ =~= oldsites.push(borrow_span));
                        self.set_state_at(
                            si,
                            vi,
                            OwnershipState::Borrowed {
                                borrow_count: new_count,
                                borrowed_at: sites,
                            },
                        );
                        if self.in_async_context {
                            let ghost oldpending = self.borrows_before_await@;
                            self.borrows_before_await.push((name.to_owned(), borrow_span));
                            proof {
                                assert(self.borrows_before_await@.drop_last() =~= oldpending);
                            }
                        }
                        Ok(())
                    },
                    OwnershipState::MutBorrowed { borrowed_at } => {
                        let prev: Span = *borrowed_at;
                        let msg = cat3("cannot borrow `", name, "` while it is mutably borrowed");
                        Err(
                            Diagnostic::error(msg.as_str()).with_code(
                                ErrorCode::mut_borrow_conflict(),
                            ).with_label(borrow_span, "attempting to borrow here")
                                .with_secondary_label(prev, "mutable borrow active here"),
                        )
                    },
                    OwnershipState::Moved { moved_at } => {
                        let prev: Span = *moved_at;
                        let msg = cat3("use of `", name, "` after move");
                        Err(
                            Diagnostic::error(msg.as_str()).with_code(ErrorCode::use_after_move())
                                .with_label(borrow_span, "use after move").with_secondary_label(
                                prev,
                                "value moved here",
                            ),
                        )
                    },
                }
            },
            None => Ok(()),
        }
    }

    /// Registers a mutable borrow of a variable.
    pub fn borrow_mut(&mut self, name: &str, borrow_span: Span) -> (r: Result<(), Diagnostic>)
        ensures
            final(self).spec_depth() == old(self).spec_depth(),
            final(self).spec_diagnostics() == old(self).spec_diagnostics(),
            final(self).spec_in_async() == old(self).spec_in_async(),
            match old(self).spec_lookup(name@) {
                Some(info) => {
                    &&& r is Ok <==> spec_can_borrow_mut(info)
                    &&& spec_can_borrow_mut(info) ==> {
                        &&& final(self).spec_lookup(name@) == Some(
                            spec_after_borrow_mut(info, borrow_span),
                        )
                        &&& forall|n: Seq<char>|
                            n != name@ ==> final(self).spec_lookup(n) == old(self).spec_lookup(n)
                    }
                    &&& !spec_can_borrow_mut(info) ==> (*final(self) == *old(self) && (r
                        matches Err(d) && d.level is Error && (if !info.is_mutable || !(
                    info.state is Moved) {
                        d.code == Some(ErrorCode { category: 'O', number: 3u16 })
                    } else {
                        d.code == Some(ErrorCode { category: 'O', number: 1u16 })
                    }) && d.labels@.len() == 2 && d.labels@[0].span == borrow_span
                        && d.labels@[0].primary && !d.labels@[1].primary && d.labels@[1].span
                        == spec_mut_conflict_site(info, borrow_span)))
                },
                None => r is Ok && *final(self) == *old(self),
            },
    {
        match self.locate(name) {
            Some((si, vi)) => {
                let entry = &self.scopes[si].variables[vi].1;
                if !entry.is_mutable {
                    let defined = entry.defined_at;
                    let msg = cat3("cannot borrow `", name, "` mutably - not mutable");
                    return Err(
                        Diagnostic::error(msg.as_str()).with_code(ErrorCode::mut_borrow_conflict())
                            .with_label(borrow_span, "attempting to borrow mutably")
                            .with_secondary_label(defined, "defined as immutable here").with_help(
                            "add `mut` to the declaration: `let mut {}`",
                        ),
                    );
                }
                match &entry.state {
                    OwnershipState::Owned => {
                        self.set_state_at(
                            si,
                            vi,
                            OwnershipState::MutBorrowed { borrowed_at: borrow_span },
                        );
                        if self.in_async_context {
                            self.borrows_before_await.push((name.to_owned(), borrow_span));
                        }
                        Ok(())
                    },
                    OwnershipState::Borrowed { borrow_count: _, borrowed_at } => {
                        let prev: Span = if borrowed_at.len() > 0 {
                            borrowed_at[0]
                        } else {
                            borrow_span
                        };
                        let msg = cat3("cannot borrow `", name, "` mutably while it is borrowed");
                        Err(
                            Diagnostic::error(msg.as_str()).with_code(
                                ErrorCode::mut_borrow_conflict(),
                            ).with_label(borrow_span, "attempting to borrow mutably")
                                .with_secondary_label(prev, "immutable borrow active here"),
                        )
                    },
                    OwnershipState::MutBorrowed { borrowed_at } => {
                        let prev: Span = *borrowed_at;
                        let msg = cat3("cannot borrow `", name, "` mutably more than once");
                        Err(
                            Diagnostic::error(msg.as_str()).with_code(
                                ErrorCode::mut_borrow_conflict(),
                            ).with_label(borrow_span, "second mutable borrow")
                                .with_secondary_label(prev, "first mutable borrow here"),
                        )
                    },
                    OwnershipState::Moved { moved_at } => {
                        let prev: Span = *moved_at;
                        let msg = cat3("use of `", name, "` after move");
                        Err(
                            Diagnostic::error(msg.as_str()).with_code(ErrorCode::use_after_move())
                                .with_label(borrow_span, "use after move").with_secondary_label(
                                prev,
                                "value moved here",
                            ),
                        )
                    },
                }
            },
            None => Ok(()),
        }
    }

    /// Checks a read of a variable: reading after a move is an error, and
    /// the error names both the read site and the move site.
    pub fn check_use(&mut self, name: &str, use_span: Span) -> (r: Result<(), Diagnostic>)
        ensures
            *final(self) == *old(self),
            match old(self).spec_lookup(name@) {
                Some(info) => {
                    &&& r is Err <==> info.state is Moved
                    &&& info.state matches OwnershipState::Moved { moved_at } ==> (r
                        matches Err(d) && d.level is Error && d.code == Some(
                        ErrorCode { category: 'O', number: 1u16 },
                    ) && d.labels@.len() == 2 && d.labels@[0].span == use_span
                        && d.labels@[0].primary && d.labels@[1].span == moved_at
                        && !d.labels@[1].primary)
                },
                None => r is Ok,
            },
    {
        match self.lookup(name) {
            Some(info) => {
                match &info.state {
                    OwnershipState::Moved { moved_at } => {
                        let prev: Span = *moved_at;
                        let msg = cat3("use of `", name, "` after move");
                        Err(
                            Diagnostic::error(msg.as_str()).with_code(ErrorCode::use_after_move())
                                .with_label(use_span, "use after move").with_secondary_label(
                                prev,
                                "value moved here",
                            ).with_help("consider cloning the value or using a reference"),
                        )
                    },
                    _ => Ok(()),
                }
            },
            None => Ok(()),
        }
    }

    /// Enters an async context; the pending-borrow list starts empty.
    pub fn enter_async(&mut self)
        ensures
            final(self).spec_in_async(),
            final(self).spec_pending_borrows() =~= Seq::<(String, Span)>::empty(),
            final(self).spec_depth() == old(self).spec_depth(),
            forall|n: Seq<char>| final(self).spec_lookup(n) == old(self).spec_lookup(n),
            final(self).spec_diagnostics() == old(self).spec_diagnostics(),
    {
        self.in_async_context = true;
        self.borrows_before_await = Vec::new();
    }

    /// Exits the async context, dropping the pending borrows.
    pub fn exit_async(&mut self)
        ensures
            !final(self).spec_in_async(),
            final(self).spec_pending_borrows() =~= Seq::<(String, Span)>::empty(),
            final(self).spec_depth() == old(self).spec_depth(),
            forall|n: Seq<char>| final(self).spec_lookup(n) == old(self).spec_lookup(n),
            final(self).spec_diagnostics() == old(self).spec_diagnostics(),
    {
        self.in_async_context = false;
        self.borrows_before_await = Vec::new();
    }

    /// Flags every borrow pending since the async context began: a
    /// reference cannot cross an await point. The pending list is then
    /// cleared.
    #[verifier::rlimit(50)]
    pub fn check_await(&mut self, await_span: Span)
        ensures
            final(self).spec_pending_borrows() =~= Seq::<(String, Span)>::empty(),
            final(self).spec_depth() == old(self).spec_depth(),
            forall|n: Seq<char>| final(self).spec_lookup(n) == old(self).spec_lookup(n),
            final(self).spec_in_async() == old(self).spec_in_async(),
            final(self).spec_diagnostics().len() == old(self).spec_diagnostics().len() + old(
                self,
            ).spec_pending_borrows().len(),
            forall|i: int|
                0 <= i < old(self).spec_diagnostics().len() ==> final(self).spec_diagnostics()[i]
                    == old(self).spec_diagnostics()[i],
            forall|i: int|
                0 <= i < old(self).spec_pending_borrows().len() ==> is_await_diagnostic(
                    final(self).spec_diagnostics()[old(self).spec_diagnostics().len() + i],
                    #[trigger] old(self).spec_pending_borrows()[i],
                    await_span,
                ),
    {
        let n = self.borrows_before_await.len();
        let ghost pending = self.borrows_before_await@;
        let ghost olddiags = self.diagnostics@;
        let mut i: usize = 0;
        while i < n
            invariant
                pending == old(self).borrows_before_await@,
                olddiags == old(self).spec_diagnostics(),
                self.borrows_before_await@ == pending,
                self.scopes@ == old(self).scopes@,
                self.in_async_context == old(self).in_async_context,
                n == pending.len(),
                i <= n,
                self.diagnostics@.len() == olddiags.len() + i,
                forall|l: int| 0 <= l < olddiags.len() ==> self.diagnostics@[l] == olddiags[l],
                forall|l: int|
                    0 <= l < i ==> is_await_diagnostic(
                        self.diagnostics@[olddiags.len() + l],
                        #[trigger] pending[l],
                        await_span,
                    ),
            decreases n - i,
        {
            let var_name = self.borrows_before_await[i].0.clone();
            let borrow_span = self.borrows_before_await[i].1;
            let msg = cat3("reference to `", var_name.as_str(), "` cannot cross await");
            let d = Diagnostic::error(msg.as_str()).with_code(ErrorCode::borrow_across_await())
                .with_label(borrow_span, "reference created here").with_secondary_label(
                await_span,
                "await happens here",
            ).with_help("copy the value before await or use owned type");
            proof {
                assert(is_await_diagnostic(d, pending[i as int], await_span));
            }
            self.diagnostics.push(d);
            i = i + 1;
        }
        self.borrows_before_await = Vec::new();
        proof {
            assert forall|ix: int|
                0 <= ix < old(self).spec_pending_borrows().len() implies is_await_diagnostic(
                final(self).spec_diagnostics()[old(self).spec_diagnostics().len() + ix],
                #[trigger] old(self).spec_pending_borrows()[ix],
                await_span,
            ) by {
                assert(0 <= ix < pending.len());
                assert(is_await_diagnostic(
                    self.diagnostics@[olddiags.len() + ix],
                    pending[ix],
                    await_span,
                ));
            }
        }
    }

    /// Releases the borrows of every variable tracked in the current scope:
    /// their states revert to owned. This models block-scoped borrow
    /// lifetimes.
    pub fn release_borrows(&mut self)
        ensures
            final(self).spec_depth() == old(self).spec_depth(),
            final(self).spec_diagnostics() == old(self).spec_diagnostics(),
            final(self).spec_in_async() == old(self).spec_in_async(),
            final(self).spec_pending_borrows() == old(self).spec_pending_borrows(),
            old(self).spec_depth() > 0 ==> forall|k: Seq<char>|
                #![trigger assoc_find(old(self).spec_current_vars(), k)]
                match assoc_find(old(self).spec_current_vars(), k) {
                    Some(info) => final(self).spec_lookup(k) == Some(spec_released(info)),
                    None => final(self).spec_lookup(k) == old(self).spec_lookup(k),
                },
    {
        let n = self.scopes.len();
        if n == 0 {
            return;
        }
        let ghost orig = self.scopes@;
        let ghost oldvars = orig.last().variables@;
        let m = self.scopes[n - 1].variables.len();
        let mut j: usize = 0;
        while j < m
            invariant
                orig == old(self).scopes@,
                0 < n == self.scopes@.len() == orig.len(),
                m == oldvars.len(),
                oldvars == orig.last().variables@,
                j <= m,
                self.diagnostics@ == old(self).diagnostics@,
                self.in_async_context == old(self).in_async_context,
                self.borrows_before_await@ == old(self).borrows_before_await@,
                forall|l: int| 0 <= l < orig.len() - 1 ==> self.scopes@[l] == orig[l],
                self.scopes@.last().variables@.len() == oldvars.len(),
                self.scopes@.last().active_borrows == orig.last().active_borrows,
                forall|l: int|
                    0 <= l < j ==> #[trigger] self.scopes@.last().variables@[l] == (
                    oldvars[l].0,
                    spec_released(oldvars[l].1),
                ),
                forall|l: int|
                    j <= l < oldvars.len() ==> #[trigger] self.scopes@.last().variables@[l]
                        == oldvars[l],
            decreases m - j,
        {
            let released = match &self.scopes[n - 1].variables[j].1.state {
                OwnershipState::Borrowed { .. } => true,
                OwnershipState::MutBorrowed { .. } => true,
                _ => false,
            };
            if released {
                self.scopes[n - 1].variables[j].1.state = OwnershipState::Owned;
            }
            proof {
                assert(self.scopes@.last().variables@[j as int] == (
                    oldvars[j as int].0,
                    spec_released(oldvars[j as int].1),
                ));
            }
            j = j + 1;
        }
        proof {
            lemma_assoc_find_released(oldvars, self.scopes@.last().variables@);
            assert forall|k: Seq<char>|
                #![trigger assoc_find(old(self).spec_current_vars(), k)]
                match assoc_find(old(self).spec_current_vars(), k) {
                    Some(info) => final(self).spec_lookup(k) == Some(spec_released(info)),
                    None => final(self).spec_lookup(k) == old(self).spec_lookup(k),
                } by {
                assert(self.scopes@.drop_last() =~= orig.drop_last());
                match assoc_find(oldvars, k) {
                    Some(info) => {
                        assert(assoc_find(self.scopes@.last().variables@, k) == Some(
                            spec_released(info),
                        ));
                    },
                    None => {
                        assert(assoc_find(self.scopes@.last().variables@, k) is None);
                    },
                }
            }
        }
    }

    /// The variables tracked in the current scope, or an empty list when no
    /// scope is open.
    pub closed spec fn spec_current_vars(&self) -> Seq<(String, OwnershipInfo)> {
        if self.scopes@.len() > 0 {
            self.scopes@.last().variables@
        } else {
            Seq::empty()
        }
    }
}

/// What the diagnostic for a borrow crossing an await says: an error with
/// the borrow-across-await code, naming the borrowed variable, with the
/// borrow site as its primary label and the await site as its secondary one.
pub open spec fn is_await_diagnostic(d: Diagnostic, p: (String, Span), await_span: Span) -> bool {
    &&& d.level is Error
    &&& d.code == Some(ErrorCode { category: 'O', number: 4u16 })
    &&& d.message@ == "reference to `"@ + p.0@ + "` cannot cross await"@
    &&& d.labels@.len() == 2
    &&& d.labels@[0].span == p.1
    &&& d.labels@[0].primary
    &&& d.labels@[1].span == await_span
    &&& !d.labels@[1].primary
}

/// A variable's record after scope-exit borrow release.
pub open spec fn spec_released(info: OwnershipInfo) -> OwnershipInfo {
    if info.state is Borrowed || info.state is MutBorrowed {
        OwnershipInfo { state: OwnershipState::Owned, ..info }
    } else {
        info
    }
}

/// Pointwise release keeps lookups aligned: finding a key in the released
/// list gives the released record of what the original list held.
proof fn lemma_assoc_find_released(
    s: Seq<(String, OwnershipInfo)>,
    t: Seq<(String, OwnershipInfo)>,
)
    requires
        t.len() == s.len(),
        forall|l: int| 0 <= l < s.len() ==> #[trigger] t[l] == (s[l].0, spec_released(s[l].1)),
    ensures
        forall|k: Seq<char>|
            #![trigger assoc_find(s, k)]
            match assoc_find(s, k) {
                Some(info) => assoc_find(t, k) == Some(spec_released(info)),
                None => assoc_find(t, k) is None,
            },
    decreases s.len(),
{
    if s.len() > 0 {
        assert forall|l: int|
            0 <= l < s.drop_last().len() implies #[trigger] t.drop_last()[l] == (
            s.drop_last()[l].0,
            spec_released(s.drop_last()[l].1),
        ) by {
            assert(t.drop_last()[l] == t[l]);
            assert(s.drop_last()[l] == s[l]);
        }
        lemma_assoc_find_released(s.drop_last(), t.drop_last());
        assert(t.last() == (s.last().0, spec_released(s.last().1)));
        assert forall|k: Seq<char>|
            #![trigger assoc_find(s, k)]
            match assoc_find(s, k) {
                Some(info) => assoc_find(t, k) == Some(spec_released(info)),
                None => assoc_find(t, k) is None,
            } by {
            if s.last().0@ == k {
            } else {
                assert(assoc_find(s, k) == assoc_find(s.drop_last(), k));
                assert(assoc_find(t, k) == assoc_find(t.drop_last(), k));
            }
        }
    }
}

/// Copies a vector of spans.
fn copy_spans(v: &Vec<Span>) -> (r: Vec<Span>)
    ensures
        r@ == v@,
{
    let mut r: Vec<Span> = Vec::new();
    let mut i: usize = 0;
    while i < v.len()
        invariant
            i <= v@.len(),
            r@ =~= v@.subrange(0, i as int),
        decreases v@.len() - i,
    {
        r.push(v[i]);
        i = i + 1;
    }
    proof {
        assert(r@ =~= v@);
    }
    r
}

impl Default for OwnershipChecker {
    /// A fresh checker with one open (global) scope.
    fn default() -> (r: Self)
        ensures
            r.spec_depth() == 1,
            forall|n: Seq<char>| r.spec_lookup(n) is None,
            r.spec_diagnostics() =~= Seq::<Diagnostic>::empty(),
            !r.spec_in_async(),
    {
        OwnershipChecker::new()
    }
}

/// `assoc_find` returns the entry at the latest index whose key matches.
pub proof fn lemma_assoc_find_at<V>(s: Seq<(String, V)>, j: int)
    requires
        0 <= j < s.len(),
        forall|l: int| j < l < s.len() ==> s[l].0@ != s[j].0@,
    ensures
        assoc_find(s, s[j].0@) == Some(s[j].1),
    decreases s.len(),
{
    if j == s.len() - 1 {
    } else {
        assert(s.drop_last()[j] == s[j]);
        assert forall|l: int|
            j < l < s.drop_last().len() implies s.drop_last()[l].0@ != s.drop_last()[j].0@ by {
            assert(s.drop_last()[l] == s[l]);
        }
        lemma_assoc_find_at(s.drop_last(), j);
    }
}

/// Updating the value at the latest binding of a key rebinds that key and
/// leaves every other key's lookup unchanged.
proof fn lemma_assoc_find_update_pair<V>(s: Seq<(String, V)>, j: int, v: V)
    requires
        0 <= j < s.len(),
        forall|l: int| j < l < s.len() ==> s[l].0@ != s[j].0@,
    ensures
        assoc_find(s.update(j, (s[j].0, v)), s[j].0@) == Some(v),
        forall|k: Seq<char>|
            k != s[j].0@ ==> assoc_find(s.update(j, (s[j].0, v)), k) == assoc_find(s, k),
    decreases s.len(),
{
    let t = s.update(j, (s[j].0, v));
    let key = s[j].0@;
    if j == s.len() - 1 {
        assert(t.last() == (s[j].0, v));
        assert(t.drop_last() =~= s.drop_last());
        assert(assoc_find(t, key) == Some(v));
        assert forall|k: Seq<char>| k != key implies assoc_find(t, k) == assoc_find(s, k) by {
            assert(t.last().0@ == key);
            assert(s.last().0@ == key);
            assert(assoc_find(t, k) == assoc_find(t.drop_last(), k));
            assert(assoc_find(s, k) == assoc_find(s.drop_last(), k));
        }
    } else {
        assert(s.drop_last()[j] == s[j]);
        assert forall|l: int|
            j < l < s.drop_last().len() implies s.drop_last()[l].0@ != s.drop_last()[j].0@ by {
            assert(s.drop_last()[l] == s[l]);
        }
        lemma_assoc_find_update_pair(s.drop_last(), j, v);
        assert(t.last() == s.last());
        assert(t.drop_last() =~= s.drop_last().update(j, (s[j].0, v)));
        assert(s.last().0@ != key);
        assert(assoc_find(t, key) == assoc_find(t.drop_last(), key));
        assert(assoc_find(t, key) == Some(v));
        assert forall|k: Seq<char>| k != key implies assoc_find(t, k) == assoc_find(s, k) by {
            if s.last().0@ != k {
                assert(assoc_find(t, k) == assoc_find(t.drop_last(), k));
                assert(assoc_find(s, k) == assoc_find(s.drop_last(), k));
            }
        }
    }
}

} // verus!
