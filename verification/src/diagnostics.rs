//! A collection of diagnostics accumulated during compilation.

use vstd::prelude::*;

use crate::diagnostic::{Diagnostic, DiagnosticRenderer, Level, SourceCache};
use crate::text::push_str;

verus! {

/// One diagnostic sequence extends another: the old entries are all still
/// there, in place, at the front.
pub open spec fn diags_extended(pre: Seq<Diagnostic>, post: Seq<Diagnostic>) -> bool {
    post.len() >= pre.len() && forall|i: int| 0 <= i < pre.len() ==> post[i] == pre[i]
}

/// Extension composes across successive steps.
pub proof fn lemma_diags_extended_trans(a: Seq<Diagnostic>, b: Seq<Diagnostic>, c: Seq<Diagnostic>)
    requires
        diags_extended(a, b),
        diags_extended(b, c),
    ensures
        diags_extended(a, c),
{
}

/// Whether some diagnostic in a sequence carries the given code.
pub open spec fn has_code(diags: Seq<Diagnostic>, code: crate::diagnostic::ErrorCode) -> bool {
    exists|i: int| 0 <= i < diags.len() && (#[trigger] diags[i]).code == Some(code)
}

/// Diagnostics accumulated over one compilation.
#[derive(Debug)]
pub struct Diagnostics {
    items: Vec<Diagnostic>,
}

impl Diagnostics {
    /// The accumulated diagnostics, in order.
    pub closed spec fn view(&self) -> Seq<Diagnostic> {
        self.items@
    }

    /// Whether some accumulated diagnostic is an error.
    pub open spec fn spec_has_errors(&self) -> bool {
        exists|i: int| 0 <= i < self@.len() && self@[i].level is Error
    }

    pub fn new() -> (r: Self)
        ensures
            r@ =~= Seq::<Diagnostic>::empty(),
    {
        Diagnostics { items: Vec::new() }
    }

    pub fn push(&mut self, diagnostic: Diagnostic)
        ensures
            final(self)@ == old(self)@.push(diagnostic),
    {
        self.items.push(diagnostic);
    }

    /// Records an error with the given message.
    pub fn error(&mut self, message: &str)
        ensures
            final(self)@.len() == old(self)@.len() + 1,
            final(self)@.drop_last() == old(self)@,
            final(self)@.last().level is Error,
            final(self)@.last().message@ == message@,
    {
        let ghost orig = self.items@;
        self.items.push(Diagnostic::error(message));
        proof {
            assert(self.items@.drop_last() =~= orig);
        }
    }

    /// Records a warning with the given message.
    pub fn warning(&mut self, message: &str)
        ensures
            final(self)@.len() == old(self)@.len() + 1,
            final(self)@.drop_last() == old(self)@,
            final(self)@.last().level is Warning,
            final(self)@.last().message@ == message@,
    {
        let ghost orig = self.items@;
        self.items.push(Diagnostic::warning(message));
        proof {
            assert(self.items@.drop_last() =~= orig);
        }
    }

    pub fn has_errors(&self) -> (r: bool)
        ensures
            r == self.spec_has_errors(),
    {
        let n = self.items.len();
        let mut i: usize = 0;
        while i < n
            invariant
                n == self.items@.len(),
                i <= n,
                forall|j: int| 0 <= j < i ==> !(self.items@[j].level is Error),
            decreases n - i,
        {
            if matches!(self.items[i].level, Level::Error) {
                return true;
            }
            i = i + 1;
        }
        false
    }

    pub fn is_empty(&self) -> (r: bool)
        ensures
            r == (self@.len() == 0),
    {
        self.items.len() == 0
    }

    pub fn len(&self) -> (r: usize)
        ensures
            r == self@.len(),
    {
        self.items.len()
    }

    /// The accumulated diagnostics, for iteration.
    pub fn iter(&self) -> (r: &Vec<Diagnostic>)
        ensures
            r@ == self@,
    {
        &self.items
    }

    /// Renders every diagnostic, separated by blank lines.
    pub fn render(&self, cache: &SourceCache) -> (r: String) {
        let renderer = DiagnosticRenderer::new(cache);
        let mut out = String::new();
        let n = self.items.len();
        let mut i: usize = 0;
        while i < n
            invariant
                n == self.items@.len(),
            decreases n - i,
        {
            if i > 0 {
                push_str(&mut out, "\n");
            }
            let one = renderer.render(&self.items[i]);
            push_str(&mut out, one.as_str());
            i = i + 1;
        }
        out
    }

    /// Appends every diagnostic of another collection, in order.
    pub fn append(&mut self, other: Diagnostics)
        ensures
            final(self)@ == old(self)@ + other@,
    {
        let ghost extra = other@;
        let mut v = other.items;
        while v.len() > 0
            invariant
                self.items@ + v@ == old(self)@ + extra,
            decreases v@.len(),
        {
            let ghost vpre = v@;
            let ghost ipre = self.items@;
            let d = v.remove(0);
            self.items.push(d);
            proof {
                assert(v@ =~= vpre.subrange(1, vpre.len() as int));
                assert(self.items@ + v@ =~= ipre + vpre);
            }
        }
        proof {
            assert(v@ =~= Seq::<Diagnostic>::empty());
            assert(self.items@ =~= self.items@ + v@);
        }
    }

    /// Moves the accumulated diagnostics out, leaving this collection empty.
    pub fn take(&mut self) -> (r: Diagnostics)
        ensures
            r@ == old(self)@,
            final(self)@ =~= Seq::<Diagnostic>::empty(),
    {
        let mut out = Diagnostics::new();
        core::mem::swap(&mut out, self);
        out
    }
}

} // verus!
