//! Lookups in keyed lists: the first element that carries a given key.

use vstd::prelude::*;

verus! {

/// `i` is the position of the first element of `s` that satisfies `p`.
pub open spec fn is_first_match<T>(s: Seq<T>, p: spec_fn(T) -> bool, i: int) -> bool {
    &&& 0 <= i < s.len()
    &&& p(s[i])
    &&& forall|j: int| 0 <= j < i ==> !p(#[trigger] s[j])
}

/// Some element of `s` satisfies `p`.
pub open spec fn has_match<T>(s: Seq<T>, p: spec_fn(T) -> bool) -> bool {
    exists|i: int| 0 <= i < s.len() && p(#[trigger] s[i])
}

/// The first element of `s` that satisfies `p` (meaningful when
/// [`has_match`] holds).
pub open spec fn first_match<T>(s: Seq<T>, p: spec_fn(T) -> bool) -> T {
    s[choose|i: int| is_first_match(s, p, i)]
}

/// The element at the first matching position is the first match.
pub proof fn lemma_first_match_at<T>(s: Seq<T>, p: spec_fn(T) -> bool, i: int)
    requires
        is_first_match(s, p, i),
    ensures
        first_match(s, p) == s[i],
        has_match(s, p),
{
    let k = choose|k: int| is_first_match(s, p, k);
    assert(is_first_match(s, p, k));
    if k < i {
        assert(!p(s[k]));
    } else if i < k {
        assert(!p(s[i]));
    }
}

proof fn lemma_first_match_from<T>(s: Seq<T>, p: spec_fn(T) -> bool, i: int, w: int)
    requires
        0 <= i <= w < s.len(),
        p(s[w]),
        forall|j: int| 0 <= j < i ==> !p(#[trigger] s[j]),
    ensures
        p(first_match(s, p)),
    decreases w - i,
{
    if p(s[i]) {
        lemma_first_match_at(s, p, i);
    } else {
        lemma_first_match_from(s, p, i + 1, w);
    }
}

/// Where some element matches, the first match satisfies the predicate.
pub proof fn lemma_first_match_satisfies<T>(s: Seq<T>, p: spec_fn(T) -> bool)
    requires
        has_match(s, p),
    ensures
        p(first_match(s, p)),
{
    let w = choose|w: int| 0 <= w < s.len() && p(#[trigger] s[w]);
    lemma_first_match_from(s, p, 0, w);
}

} // verus!
