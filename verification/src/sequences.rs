//! Two notions over sequences that the rest of the crate is stated in: the
//! first position at which something holds, and a sum over the entries.

use vstd::prelude::*;

verus! {

/// The index of the first entry of `s` that satisfies `p`, or the length of
/// `s` if none does.
pub open spec fn first_where<T>(s: Seq<T>, p: spec_fn(T) -> bool) -> int
    decreases s.len(),
{
    if s.len() == 0 || p(s[0]) {
        0
    } else {
        1 + first_where(s.drop_first(), p)
    }
}

/// No entry before `first_where` satisfies `p`, and the entry at it, if
/// there is one, does.
pub proof fn lemma_first_where<T>(s: Seq<T>, p: spec_fn(T) -> bool)
    ensures
        0 <= first_where(s, p) <= s.len(),
        forall|k: int| 0 <= k < first_where(s, p) ==> !p(#[trigger] s[k]),
        first_where(s, p) < s.len() ==> p(s[first_where(s, p)]),
    decreases s.len(),
{
    if s.len() == 0 || p(s[0]) {
    } else {
        let rest = s.drop_first();
        lemma_first_where(rest, p);
        assert forall|k: int| 0 <= k < first_where(s, p) implies !p(#[trigger] s[k]) by {
            if k > 0 {
                assert(s[k] == rest[k - 1]);
            }
        }
        if first_where(s, p) < s.len() {
            assert(s[first_where(s, p)] == rest[first_where(rest, p)]);
        }
    }
}

/// `first_where` is the only index with that property.
pub proof fn lemma_first_where_is<T>(s: Seq<T>, p: spec_fn(T) -> bool, n: int)
    requires
        0 <= n <= s.len(),
        forall|k: int| 0 <= k < n ==> !p(#[trigger] s[k]),
        n < s.len() ==> p(s[n]),
    ensures
        first_where(s, p) == n,
{
    lemma_first_where(s, p);
    let f = first_where(s, p);
    if f < n {
        assert(!p(s[f]));
    } else if n < f {
        assert(!p(s[n]));
    }
}

/// The sum of `weight` over the entries of `s`.
pub open spec fn sum_by<T>(s: Seq<T>, weight: spec_fn(T) -> nat) -> nat
    decreases s.len(),
{
    if s.len() == 0 {
        0
    } else {
        sum_by(s.drop_last(), weight) + weight(s.last())
    }
}

/// Taking one entry out of a sequence lowers a sum over it by that entry's
/// weight.
pub proof fn lemma_sum_by_remove<T>(s: Seq<T>, i: int, weight: spec_fn(T) -> nat)
    requires
        0 <= i < s.len(),
    ensures
        sum_by(s, weight) == sum_by(s.remove(i), weight) + weight(s[i]),
    decreases s.len(),
{
    if i == s.len() - 1 {
        assert(s.remove(i) == s.drop_last());
    } else {
        lemma_sum_by_remove(s.drop_last(), i, weight);
        assert(s.remove(i).drop_last() == s.drop_last().remove(i));
        assert(s.remove(i).last() == s.last());
    }
}

/// A sum over a sequence depends only on which entries it holds and how
/// often, not on their order.
pub proof fn lemma_sum_by_reorder<T>(a: Seq<T>, b: Seq<T>, weight: spec_fn(T) -> nat)
    requires
        a.to_multiset() == b.to_multiset(),
    ensures
        sum_by(a, weight) == sum_by(b, weight),
    decreases a.len(),
{
    a.to_multiset_ensures();
    b.to_multiset_ensures();
    if a.len() > 0 {
        let x = a.last();
        let rest = a.drop_last();
        assert(a == rest.push(x));
        rest.to_multiset_ensures();
        assert(a.to_multiset().count(x) > 0);
        assert(b.contains(x));
        let j = choose|j: int| 0 <= j < b.len() && b[j] == x;
        assert(rest.to_multiset() =~= a.to_multiset().remove(x));
        assert(b.remove(j).to_multiset() =~= rest.to_multiset());
        lemma_sum_by_reorder(rest, b.remove(j), weight);
        lemma_sum_by_remove(b, j, weight);
    }
}

} // verus!
