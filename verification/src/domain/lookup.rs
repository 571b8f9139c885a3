//! Searching a stored sequence of records: the first record that satisfies a
//! predicate, whether any does, and removal of all that do.

use vstd::prelude::*;

verus! {

/// `i` is the position of the first element of `s` satisfying `p`.
pub open spec fn is_first_match<T>(s: Seq<T>, p: spec_fn(T) -> bool, i: int) -> bool {
    &&& 0 <= i < s.len()
    &&& p(s[i])
    &&& forall|j: int| 0 <= j < i ==> !p(#[trigger] s[j])
}

/// Some element of `s` satisfies `p`.
pub open spec fn any_match<T>(s: Seq<T>, p: spec_fn(T) -> bool) -> bool {
    exists|i: int| 0 <= i < s.len() && p(#[trigger] s[i])
}

/// Position of the first element of `s` satisfying `p`, or -1 when there is none.
pub open spec fn first_match_index<T>(s: Seq<T>, p: spec_fn(T) -> bool) -> int {
    if exists|i: int| is_first_match(s, p, i) {
        choose|i: int| is_first_match(s, p, i)
    } else {
        -1
    }
}

/// The first element of `s` satisfying `p`, if any.
pub open spec fn first_match<T>(s: Seq<T>, p: spec_fn(T) -> bool) -> Option<T> {
    let i = first_match_index(s, p);
    if 0 <= i { Some(s[i]) } else { None }
}

/// The first matching position is unique.
pub proof fn lemma_first_match_at<T>(s: Seq<T>, p: spec_fn(T) -> bool, i: int)
    requires
        is_first_match(s, p, i),
    ensures
        first_match_index(s, p) == i,
        first_match(s, p) == Some(s[i]),
        any_match(s, p),
{
    let k = choose|k: int| is_first_match(s, p, k);
    assert(is_first_match(s, p, k));
    if k < i {
        assert(!p(s[k]));
    } else if i < k {
        assert(!p(s[i]));
    }
}

/// With no matching element there is no first match.
pub proof fn lemma_no_match<T>(s: Seq<T>, p: spec_fn(T) -> bool)
    requires
        forall|j: int| 0 <= j < s.len() ==> !p(#[trigger] s[j]),
    ensures
        first_match_index(s, p) == -1,
        first_match(s, p) == None::<T>,
        !any_match(s, p),
{
    if exists|i: int| is_first_match(s, p, i) {
        let k = choose|k: int| is_first_match(s, p, k);
        assert(p(s[k]));
    }
}

/// When some element matches, the first match exists.
pub proof fn lemma_first_match_exists<T>(s: Seq<T>, p: spec_fn(T) -> bool)
    requires
        any_match(s, p),
    ensures
        is_first_match(s, p, first_match_index(s, p)),
        first_match(s, p) == Some(s[first_match_index(s, p)]),
{
    let w = choose|i: int| 0 <= i < s.len() && p(#[trigger] s[i]);
    let f = least_match_below(s, p, w);
    lemma_first_match_at(s, p, f);
}

/// There is a first match exactly when some element matches.
pub proof fn lemma_first_match_some_iff<T>(s: Seq<T>, p: spec_fn(T) -> bool)
    ensures
        first_match(s, p) is Some <==> any_match(s, p),
{
    if any_match(s, p) {
        lemma_first_match_exists(s, p);
    } else {
        assert forall|j: int| 0 <= j < s.len() implies !p(#[trigger] s[j]) by {
            if p(s[j]) {
                assert(any_match(s, p));
            }
        }
        lemma_no_match(s, p);
    }
}

proof fn least_match_below<T>(s: Seq<T>, p: spec_fn(T) -> bool, w: int) -> (f: int)
    requires
        0 <= w < s.len(),
        p(s[w]),
    ensures
        is_first_match(s, p, f),
    decreases w,
{
    if exists|j: int| 0 <= j < w && p(#[trigger] s[j]) {
        let j = choose|j: int| 0 <= j < w && p(#[trigger] s[j]);
        least_match_below(s, p, j)
    } else {
        w
    }
}

/// Keeping, in order, the elements of `s` that do not satisfy `p`.
pub open spec fn without<T>(s: Seq<T>, p: spec_fn(T) -> bool) -> Seq<T> {
    s.filter(|x: T| !p(x))
}

/// One more element: the kept elements grow by it exactly when it does not match.
pub proof fn lemma_without_push<T>(s: Seq<T>, p: spec_fn(T) -> bool, x: T)
    ensures
        without(s.push(x), p) == (if p(x) { without(s, p) } else { without(s, p).push(x) }),
{
    reveal_with_fuel(Seq::filter, 1);
    assert(s.push(x).drop_last() =~= s);
}

/// Removing elements changes the length exactly when one of them matches.
pub proof fn lemma_without_len<T>(s: Seq<T>, p: spec_fn(T) -> bool)
    ensures
        without(s, p).len() <= s.len(),
        without(s, p).len() == s.len() <==> !any_match(s, p),
    decreases s.len(),
{
    reveal_with_fuel(Seq::filter, 1);
    if s.len() > 0 {
        let t = s.drop_last();
        lemma_without_len(t, p);
        assert(s =~= t.push(s.last()));
        lemma_without_push(t, p, s.last());
        if any_match(t, p) {
            let i = choose|i: int| 0 <= i < t.len() && p(#[trigger] t[i]);
            assert(s[i] == t[i]);
        }
        if any_match(s, p) && !p(s.last()) {
            let i = choose|i: int| 0 <= i < s.len() && p(#[trigger] s[i]);
            assert(i < t.len());
            assert(t[i] == s[i]);
        }
    }
}

/// Replacing the first match by another matching element keeps it the first match.
pub proof fn lemma_first_match_after_update<T>(s: Seq<T>, p: spec_fn(T) -> bool, i: int, x: T)
    requires
        is_first_match(s, p, i),
        p(x),
    ensures
        is_first_match(s.update(i, x), p, i),
        first_match(s.update(i, x), p) == Some(x),
{
    let t = s.update(i, x);
    assert forall|j: int| 0 <= j < i implies !p(#[trigger] t[j]) by {
        assert(t[j] == s[j]);
    }
    lemma_first_match_at(t, p, i);
}

/// A matching element added after elements none of which matches is the first match.
pub proof fn lemma_first_match_after_push<T>(s: Seq<T>, p: spec_fn(T) -> bool, x: T)
    requires
        !any_match(s, p),
        p(x),
    ensures
        is_first_match(s.push(x), p, s.len() as int),
        first_match(s.push(x), p) == Some(x),
{
    let t = s.push(x);
    assert forall|j: int| 0 <= j < s.len() implies !p(#[trigger] t[j]) by {
        assert(t[j] == s[j]);
        if p(s[j]) {
            assert(any_match(s, p));
        }
    }
    lemma_first_match_at(t, p, s.len() as int);
}

/// Nothing that matches is kept.
pub proof fn lemma_without_removes<T>(s: Seq<T>, p: spec_fn(T) -> bool)
    ensures
        !any_match(without(s, p), p),
{
    let w = without(s, p);
    assert forall|i: int| 0 <= i < w.len() implies !p(#[trigger] w[i]) by {
        s.lemma_filter_pred(|x: T| !p(x), i);
    }
}

/// Everything kept was there before.
pub proof fn lemma_without_keeps_elements<T>(s: Seq<T>, p: spec_fn(T) -> bool, x: T)
    requires
        without(s, p).contains(x),
    ensures
        s.contains(x),
        !p(x),
{
    s.lemma_filter_contains_rev(|y: T| !p(y), x);
    let w = without(s, p);
    let i = choose|i: int| 0 <= i < w.len() && w[i] == x;
    s.lemma_filter_pred(|y: T| !p(y), i);
}

} // verus!
