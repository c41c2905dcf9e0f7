//! Association lists keyed by `String`, with verified map semantics. The
//! tables of this compiler (scopes, registries, module indexes) are small, so
//! a vector of pairs with last-entry-wins lookup serves as their map.

use vstd::prelude::*;

use crate::text::string_is;

verus! {

/// The value bound to a key, searching the most recent binding first.
pub open spec fn assoc_find<V>(s: Seq<(String, V)>, k: Seq<char>) -> Option<V>
    decreases s.len(),
{
    if s.len() == 0 {
        None
    } else if s.last().0@ == k {
        Some(s.last().1)
    } else {
        assoc_find(s.drop_last(), k)
    }
}

/// Updating an entry whose key has no later duplicate updates the lookup for
/// that key and leaves every other key's lookup unchanged.
pub proof fn lemma_assoc_find_update<V>(s: Seq<(String, V)>, j: int, p: (String, V))
    requires
        0 <= j < s.len(),
        p.0@ == s[j].0@,
        forall|l: int| j < l < s.len() ==> s[l].0@ != s[j].0@,
    ensures
        assoc_find(s.update(j, p), s[j].0@) == Some(p.1),
        forall|k: Seq<char>| k != s[j].0@ ==> assoc_find(s.update(j, p), k) == assoc_find(s, k),
    decreases s.len(),
{
    let t = s.update(j, p);
    let key = s[j].0@;
    if j == s.len() - 1 {
        assert(t.last() == p);
        assert(t.drop_last() =~= s.drop_last());
        assert(assoc_find(t, key) == Some(p.1));
        assert forall|k: Seq<char>| k != key implies assoc_find(t, k) == assoc_find(s, k) by {
            assert(t.last().0@ == key);
            assert(s.last().0@ == key);
            assert(assoc_find(t, k) == assoc_find(t.drop_last(), k));
            assert(assoc_find(s, k) == assoc_find(s.drop_last(), k));
        }
    } else {
        assert(s.drop_last()[j] == s[j]);
        assert forall|l: int|
            j < l < s.drop_last().len() implies s.drop_last()[l].0@ != s.drop_last()[j].0@ by {
            assert(s.drop_last()[l] == s[l]);
        }
        lemma_assoc_find_update(s.drop_last(), j, p);
        assert(t.last() == s.last());
        assert(t.drop_last() =~= s.drop_last().update(j, p));
        assert(s.last().0@ != key);
        assert(assoc_find(t, key) == assoc_find(t.drop_last(), key));
        assert(assoc_find(t, key) == Some(p.1));
        assert forall|k: Seq<char>| k != key implies assoc_find(t, k) == assoc_find(s, k) by {
            if s.last().0@ != k {
                assert(assoc_find(t, k) == assoc_find(t.drop_last(), k));
                assert(assoc_find(s, k) == assoc_find(s.drop_last(), k));
            }
        }
    }
}

/// Looks a key up in the association list.
pub fn assoc_get<'a, V>(s: &'a Vec<(String, V)>, k: &str) -> (r: Option<&'a V>)
    ensures
        match r {
            Some(v) => assoc_find(s@, k@) == Some(*v),
            None => assoc_find(s@, k@) is None,
        },
{
    let mut i: usize = s.len();
    proof {
        assert(s@.subrange(0, s@.len() as int) =~= s@);
    }
    while i > 0
        invariant
            i <= s@.len(),
            assoc_find(s@, k@) == assoc_find(s@.subrange(0, i as int), k@),
        decreases i,
    {
        proof {
            assert(s@.subrange(0, i as int).last() == s@[i - 1]);
            assert(s@.subrange(0, i as int).drop_last() =~= s@.subrange(0, i - 1));
        }
        if string_is(&s[i - 1].0, k) {
            return Some(&s[i - 1].1);
        }
        i = i - 1;
    }
    proof {
        assert(s@.subrange(0, 0) =~= Seq::<(String, V)>::empty());
    }
    None
}

/// Whether the key is bound.
pub fn assoc_contains<V>(s: &Vec<(String, V)>, k: &str) -> (r: bool)
    ensures
        r == (assoc_find(s@, k@) is Some),
{
    match assoc_get(s, k) {
        Some(_) => true,
        None => false,
    }
}

/// Binds the key, replacing its most recent binding if one exists.
pub fn assoc_set<V>(s: &mut Vec<(String, V)>, k: String, v: V)
    ensures
        assoc_find(final(s)@, k@) == Some(v),
        forall|k2: Seq<char>| k2 != k@ ==> assoc_find(final(s)@, k2) == assoc_find(old(s)@, k2),
        final(s)@.len() <= old(s)@.len() + 1,
{
    let ghost orig = old(s)@;
    let mut i: usize = s.len();
    while i > 0
        invariant
            orig == old(s)@,
            s@ == orig,
            i <= s@.len(),
            forall|l: int| i <= l < s@.len() ==> s@[l].0@ != k@,
        decreases i,
    {
        if string_is(&s[i - 1].0, k.as_str()) {
            let ghost j = i - 1;
            let ghost gp: (String, V) = (k, v);
            s[i - 1] = (k, v);
            proof {
                assert(s@ =~= orig.update(j as int, gp));
                lemma_assoc_find_update(orig, j as int, gp);
                assert(orig[j as int].0@ == k@);
            }
            return;
        }
        i = i - 1;
    }
    s.push((k, v));
    proof {
        assert(s@.last() == (k, v));
        assert(s@.drop_last() =~= orig);
    }
}

} // verus!
