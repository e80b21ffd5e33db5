//! Sums and extremes of sequences of values, and what holds of them when
//! two sequences are put end to end.

use vstd::prelude::*;

verus! {

/// The sum of `vals`.
pub open spec fn total(vals: Seq<int>) -> int
    decreases vals.len(),
{
    if vals.len() == 0 {
        0
    } else {
        total(vals.drop_last()) + vals.last()
    }
}

/// The number a sum has reached in `state`.
pub open spec fn reached(state: Option<int>) -> int {
    match state {
        Some(n) => n,
        None => 0,
    }
}

/// The lesser of `state` and `v`, and `v` where `state` is unset.
pub open spec fn lesser(state: Option<int>, v: int) -> int {
    match state {
        Some(m) => if m <= v {
            m
        } else {
            v
        },
        None => v,
    }
}

/// The greater of `state` and `v`, and `v` where `state` is unset.
pub open spec fn greater(state: Option<int>, v: int) -> int {
    match state {
        Some(m) => if m >= v {
            m
        } else {
            v
        },
        None => v,
    }
}

/// The sum of two sequences put end to end is the sum of their sums.
pub proof fn lemma_total_concat(a: Seq<int>, b: Seq<int>)
    ensures
        total(a + b) == total(a) + total(b),
    decreases b.len(),
{
    if b.len() == 0 {
        assert(a + b =~= a);
    } else {
        assert((a + b).drop_last() =~= a + b.drop_last());
        lemma_total_concat(a, b.drop_last());
    }
}

/// The least of two sequences put end to end is the lesser of their least values.
pub proof fn lemma_min_concat(a: Seq<int>, b: Seq<int>)
    requires
        a.len() > 0,
        b.len() > 0,
    ensures
        (a + b).min() == lesser(Some(a.min()), b.min()),
{
    let ab = a + b;
    a.min_ensures();
    b.min_ensures();
    ab.min_ensures();
    let i = choose|i: int| 0 <= i < a.len() && a[i] == a.min();
    assert(ab[i] == a.min());
    let j = choose|j: int| 0 <= j < b.len() && b[j] == b.min();
    assert(ab[a.len() + j] == b.min());
    let k = choose|k: int| 0 <= k < ab.len() && ab[k] == ab.min();
    if k < a.len() {
        assert(ab[k] == a[k]);
    } else {
        assert(ab[k] == b[k - a.len()]);
    }
}

/// The greatest of two sequences put end to end is the greater of their greatest values.
pub proof fn lemma_max_concat(a: Seq<int>, b: Seq<int>)
    requires
        a.len() > 0,
        b.len() > 0,
    ensures
        (a + b).max() == greater(Some(a.max()), b.max()),
{
    let ab = a + b;
    a.max_ensures();
    b.max_ensures();
    ab.max_ensures();
    let i = choose|i: int| 0 <= i < a.len() && a[i] == a.max();
    assert(ab[i] == a.max());
    let j = choose|j: int| 0 <= j < b.len() && b[j] == b.max();
    assert(ab[a.len() + j] == b.max());
    let k = choose|k: int| 0 <= k < ab.len() && ab[k] == ab.max();
    if k < a.len() {
        assert(ab[k] == a[k]);
    } else {
        assert(ab[k] == b[k - a.len()]);
    }
}

/// A sum is the sum without one of its values, and that value.
proof fn lemma_total_remove(s: Seq<int>, k: int)
    requires
        0 <= k < s.len(),
    ensures
        total(s) == total(s.remove(k)) + s[k],
{
    let front = s.take(k);
    let back = s.skip(k + 1);
    assert(s =~= front + seq![s[k]] + back);
    assert(s.remove(k) =~= front + back);
    lemma_total_concat(front + seq![s[k]], back);
    lemma_total_concat(front, seq![s[k]]);
    lemma_total_concat(front, back);
    assert(seq![s[k]].drop_last() =~= Seq::<int>::empty());
    assert(total(Seq::<int>::empty()) == 0);
    assert(total(seq![s[k]]) == s[k]);
}

/// The sum of the values does not depend on their order.
pub proof fn lemma_total_any_order(a: Seq<int>, b: Seq<int>)
    requires
        a.to_multiset() == b.to_multiset(),
    ensures
        total(a) == total(b),
    decreases a.len(),
{
    a.to_multiset_ensures();
    b.to_multiset_ensures();
    if a.len() > 0 {
        let x = a.last();
        assert(a.contains(x));
        assert(a.to_multiset().count(x) > 0);
        assert(b.to_multiset().count(x) > 0);
        assert(b.contains(x));
        let k = choose|k: int| 0 <= k < b.len() && b[k] == x;
        assert(a.drop_last() =~= a.remove(a.len() - 1));
        lemma_total_any_order(a.drop_last(), b.remove(k));
        lemma_total_remove(b, k);
    }
}

/// The least and the greatest of the values do not depend on their order.
pub proof fn lemma_extremes_any_order(a: Seq<int>, b: Seq<int>)
    requires
        a.to_multiset() == b.to_multiset(),
    ensures
        a.len() == b.len(),
        a.min() == b.min(),
        a.max() == b.max(),
{
    a.to_multiset_ensures();
    b.to_multiset_ensures();
    if a.len() > 0 {
        a.min_ensures();
        b.min_ensures();
        a.max_ensures();
        b.max_ensures();
        assert(a.to_multiset().count(a.min()) > 0 && b.to_multiset().count(a.min()) > 0);
        assert(b.to_multiset().count(b.min()) > 0 && a.to_multiset().count(b.min()) > 0);
        assert(a.to_multiset().count(a.max()) > 0 && b.to_multiset().count(a.max()) > 0);
        assert(b.to_multiset().count(b.max()) > 0 && a.to_multiset().count(b.max()) > 0);
        assert(b.contains(a.min()) && a.contains(b.min()));
        assert(b.contains(a.max()) && a.contains(b.max()));
    } else {
        assert(a =~= b);
    }
}

} // verus!
