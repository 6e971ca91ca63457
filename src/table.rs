//! Keyed tables held as sequences: at most one element per key, with
//! insertion that replaces the element of an existing key.

use vstd::prelude::*;

verus! {

/// No two elements of `s` share a key.
pub open spec fn unique_by<T, K>(s: Seq<T>, key: spec_fn(T) -> K) -> bool {
    forall|i: int, j: int|
        0 <= i < s.len() && 0 <= j < s.len() && i != j ==> key(s[i]) != key(s[j])
}

/// Some element of `s` has key `k`.
pub open spec fn has_key<T, K>(s: Seq<T>, key: spec_fn(T) -> K, k: K) -> bool {
    exists|i: int| 0 <= i < s.len() && key(s[i]) == k
}

/// The position of an element with key `k`, where there is one.
pub open spec fn index_of<T, K>(s: Seq<T>, key: spec_fn(T) -> K, k: K) -> int {
    choose|i: int| 0 <= i < s.len() && key(s[i]) == k
}

/// The element with key `k`, if any.
pub open spec fn lookup<T, K>(s: Seq<T>, key: spec_fn(T) -> K, k: K) -> Option<T> {
    if has_key(s, key, k) {
        Some(s[index_of(s, key, k)])
    } else {
        None
    }
}

/// `s` with `e` in place of the element of the same key, or `e` appended
/// where there is none.
pub open spec fn upsert<T, K>(s: Seq<T>, key: spec_fn(T) -> K, e: T) -> Seq<T> {
    if has_key(s, key, key(e)) {
        s.update(index_of(s, key, key(e)), e)
    } else {
        s.push(e)
    }
}

/// In a table without repeated keys, the element at `i` is the one that
/// `lookup` finds for its key.
pub proof fn lemma_index_of_unique<T, K>(s: Seq<T>, key: spec_fn(T) -> K, i: int)
    requires
        unique_by(s, key),
        0 <= i < s.len(),
    ensures
        has_key(s, key, key(s[i])),
        index_of(s, key, key(s[i])) == i,
        lookup(s, key, key(s[i])) == Some(s[i]),
{
    assert(0 <= i < s.len() && key(s[i]) == key(s[i]));
}

/// Replacing or appending keeps keys unique, and makes `e` the element
/// of its key while leaving every other key's element as it was.
pub proof fn lemma_upsert<T, K>(s: Seq<T>, key: spec_fn(T) -> K, e: T)
    requires
        unique_by(s, key),
    ensures
        unique_by(upsert(s, key, e), key),
        lookup(upsert(s, key, e), key, key(e)) == Some(e),
        forall|k: K| k != key(e) ==> lookup(upsert(s, key, e), key, k) == lookup(s, key, k),
        forall|k: K| has_key(upsert(s, key, e), key, k) <==> (k == key(e) || has_key(s, key, k)),
{
    let r = upsert(s, key, e);
    if has_key(s, key, key(e)) {
        let j = index_of(s, key, key(e));
        assert forall|k: K| k != key(e) implies lookup(r, key, k) == lookup(s, key, k) by {
            if has_key(s, key, k) {
                let i = index_of(s, key, k);
                assert(0 <= i < r.len() && key(r[i]) == k);
                lemma_index_of_unique(r, key, i);
            }
            if has_key(r, key, k) {
                let i = index_of(r, key, k);
                assert(0 <= i < s.len() && key(s[i]) == k);
            }
        }
        assert(0 <= j < r.len() && key(r[j]) == key(e));
        lemma_index_of_unique(r, key, j);
        assert forall|k: K| has_key(r, key, k) <==> (k == key(e) || has_key(s, key, k)) by {
            if has_key(s, key, k) && k != key(e) {
                let i = index_of(s, key, k);
                assert(0 <= i < r.len() && key(r[i]) == k);
            }
            if has_key(r, key, k) && k != key(e) {
                let i = index_of(r, key, k);
                assert(0 <= i < s.len() && key(s[i]) == k);
            }
        }
    } else {
        let n = s.len() as int;
        assert(unique_by(r, key));
        lemma_index_of_unique(r, key, n);
        assert forall|k: K| k != key(e) implies lookup(r, key, k) == lookup(s, key, k) by {
            if has_key(s, key, k) {
                let i = index_of(s, key, k);
                assert(0 <= i < r.len() && key(r[i]) == k);
                lemma_index_of_unique(r, key, i);
            }
            if has_key(r, key, k) {
                let i = index_of(r, key, k);
                assert(0 <= i < s.len() && key(s[i]) == k);
            }
        }
        assert forall|k: K| has_key(r, key, k) <==> (k == key(e) || has_key(s, key, k)) by {
            if has_key(s, key, k) {
                let i = index_of(s, key, k);
                assert(0 <= i < r.len() && key(r[i]) == k);
            }
            if has_key(r, key, k) && k != key(e) {
                let i = index_of(r, key, k);
                assert(0 <= i < s.len() && key(s[i]) == k);
            }
        }
    }
}

/// Keeping only some elements keeps keys unique.
pub proof fn lemma_filter_unique<T, K>(s: Seq<T>, key: spec_fn(T) -> K, keep: spec_fn(T) -> bool)
    requires
        unique_by(s, key),
    ensures
        unique_by(s.filter(keep), key),
    decreases s.len(),
{
    reveal(Seq::filter);
    if s.len() > 0 {
        let p = s.drop_last();
        assert(unique_by(p, key)) by {
            assert forall|i: int, j: int|
                0 <= i < p.len() && 0 <= j < p.len() && i != j implies key(p[i]) != key(p[j]) by {
                assert(p[i] == s[i] && p[j] == s[j]);
            }
        }
        lemma_filter_unique(p, key, keep);
        let f = p.filter(keep);
        if keep(s.last()) {
            assert forall|i: int| 0 <= i < f.len() implies key(f[i]) != key(s.last()) by {
                assert(f.contains(f[i]));
                p.lemma_filter_contains_rev(keep, f[i]);
                let k = choose|k: int| 0 <= k < p.len() && p[k] == f[i];
                assert(p[k] == s[k]);
                assert(s.last() == s[s.len() - 1]);
            }
            let g = f.push(s.last());
            assert forall|i: int, j: int|
                0 <= i < g.len() && 0 <= j < g.len() && i != j implies key(g[i]) != key(g[j]) by {
                if i < f.len() && j < f.len() {
                    assert(g[i] == f[i] && g[j] == f[j]);
                } else if i < f.len() {
                    assert(g[i] == f[i]);
                } else if j < f.len() {
                    assert(g[j] == f[j]);
                }
            }
        }
    }
}

/// One more step of a filter over a growing prefix.
pub proof fn lemma_filter_prefix_step<T>(s: Seq<T>, keep: spec_fn(T) -> bool, i: int)
    requires
        0 <= i < s.len(),
    ensures
        s.take(i + 1).filter(keep) == (if keep(s[i]) {
            s.take(i).filter(keep).push(s[i])
        } else {
            s.take(i).filter(keep)
        }),
{
    reveal(Seq::filter);
    assert(s.take(i + 1).drop_last() =~= s.take(i));
}

} // verus!
