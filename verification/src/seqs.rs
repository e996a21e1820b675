//! Specification helpers over sequences: filtering and first matches.

use vstd::prelude::*;

verus! {

/// The elements of `s` for which `f` holds, in order.
pub open spec fn keep<A>(s: Seq<A>, f: spec_fn(A) -> bool) -> Seq<A>
    decreases s.len(),
{
    if s.len() == 0 {
        Seq::empty()
    } else if f(s.last()) {
        keep(s.drop_last(), f).push(s.last())
    } else {
        keep(s.drop_last(), f)
    }
}

/// One step of `keep` over a growing prefix.
pub proof fn lemma_keep_step<A>(s: Seq<A>, f: spec_fn(A) -> bool, i: int)
    requires
        0 <= i < s.len(),
    ensures
        keep(s.take(i + 1), f) == if f(s[i]) { keep(s.take(i), f).push(s[i]) } else { keep(s.take(i), f) },
{
    assert(s.take(i + 1).drop_last() =~= s.take(i));
    assert(s.take(i + 1).last() == s[i]);
}

/// Everything `keep` returns satisfies the predicate.
pub proof fn lemma_keep_all<A>(s: Seq<A>, f: spec_fn(A) -> bool)
    ensures
        forall|k: int| 0 <= k < keep(s, f).len() ==> f(#[trigger] keep(s, f)[k]),
    decreases s.len(),
{
    if s.len() > 0 {
        lemma_keep_all(s.drop_last(), f);
        let r = keep(s.drop_last(), f);
        if f(s.last()) {
            assert forall|k: int| 0 <= k < r.push(s.last()).len() implies f(#[trigger] r.push(s.last())[k]) by {
                if k < r.len() {
                    assert(r.push(s.last())[k] == r[k]);
                }
            }
        }
    }
}

/// Everything `keep` returns is an element of the input.
pub proof fn lemma_keep_members<A>(s: Seq<A>, f: spec_fn(A) -> bool)
    ensures
        forall|i: int| 0 <= i < keep(s, f).len() ==>
            exists|k: int| 0 <= k < s.len() && s[k] == #[trigger] keep(s, f)[i],
    decreases s.len(),
{
    if s.len() > 0 {
        let d = s.drop_last();
        lemma_keep_members(d, f);
        assert forall|i: int| 0 <= i < keep(s, f).len() implies
            exists|k: int| 0 <= k < s.len() && s[k] == #[trigger] keep(s, f)[i] by {
            if i < keep(d, f).len() {
                let k = choose|k: int| 0 <= k < d.len() && d[k] == keep(d, f)[i];
                assert(s[k] == d[k]);
                assert(keep(s, f)[i] == keep(d, f)[i]);
            } else {
                assert(keep(s, f)[i] == s.last());
                assert(s[s.len() - 1] == s.last());
            }
        }
    }
}

/// `i` is the first index below `n` where `p` holds.
pub open spec fn is_first(p: spec_fn(int) -> bool, n: int, i: int) -> bool {
    0 <= i < n && p(i) && forall|j: int| 0 <= j < i ==> !#[trigger] p(j)
}

/// The first index below `n` where `p` holds, if any.
pub open spec fn first(p: spec_fn(int) -> bool, n: int) -> Option<int> {
    if exists|i: int| is_first(p, n, i) {
        Some(choose|i: int| is_first(p, n, i))
    } else {
        None
    }
}

/// A first index is the first index.
pub proof fn lemma_first_is(p: spec_fn(int) -> bool, n: int, i: int)
    requires
        is_first(p, n, i),
    ensures
        first(p, n) == Some(i),
{
    let k = choose|k: int| is_first(p, n, k);
    assert(is_first(p, n, k));
    if k < i {
        assert(!p(k));
    }
    if i < k {
        assert(!p(i));
    }
}

/// Without any index where `p` holds there is no first one.
pub proof fn lemma_first_none(p: spec_fn(int) -> bool, n: int)
    requires
        forall|j: int| 0 <= j < n ==> !#[trigger] p(j),
    ensures
        first(p, n) is None,
{
}

/// Some index where `p` holds has a first one.
pub proof fn lemma_first_exists(p: spec_fn(int) -> bool, n: int, i: int)
    requires
        0 <= i < n,
        p(i),
    ensures
        first(p, n) is Some,
        first(p, n)->0 <= i,
    decreases i,
{
    if exists|j: int| 0 <= j < i && #[trigger] p(j) {
        let j = choose|j: int| 0 <= j < i && #[trigger] p(j);
        lemma_first_exists(p, n, j);
    } else {
        assert(is_first(p, n, i));
        lemma_first_is(p, n, i);
    }
}

/// An element that `f` keeps is in `keep(s, f)`.
pub proof fn lemma_keep_keeps<A>(s: Seq<A>, f: spec_fn(A) -> bool, k: int)
    requires
        0 <= k < s.len(),
        f(s[k]),
    ensures
        exists|j: int| 0 <= j < keep(s, f).len() && keep(s, f)[j] == s[k],
    decreases s.len(),
{
    if k == s.len() - 1 {
        assert(s.last() == s[k]);
        assert(keep(s, f) == keep(s.drop_last(), f).push(s.last()));
        let j = keep(s.drop_last(), f).len() as int;
        assert(keep(s, f)[j] == s[k]);
    } else {
        assert(s.drop_last()[k] == s[k]);
        lemma_keep_keeps(s.drop_last(), f, k);
        let j = choose|j: int| 0 <= j < keep(s.drop_last(), f).len() && keep(s.drop_last(), f)[j] == s.drop_last()[k];
        if f(s.last()) {
            assert(keep(s, f) == keep(s.drop_last(), f).push(s.last()));
            assert(keep(s, f)[j] == keep(s.drop_last(), f)[j]);
        } else {
            assert(keep(s, f) == keep(s.drop_last(), f));
        }
        assert(keep(s, f)[j] == s[k]);
    }
}

} // verus!
