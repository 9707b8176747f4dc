//! Totals over sequences of records, and how they change when a record is
//! added or replaced.

use vstd::prelude::*;

verus! {

/// The sum of `weight` over the items of `s`.
pub open spec fn total<T>(s: Seq<T>, weight: spec_fn(T) -> nat) -> nat
    decreases s.len(),
{
    if s.len() == 0 {
        0
    } else {
        total(s.drop_last(), weight) + weight(s.last())
    }
}

/// Adding an item adds its weight.
pub proof fn lemma_total_push<T>(s: Seq<T>, x: T, weight: spec_fn(T) -> nat)
    ensures
        total(s.push(x), weight) == total(s, weight) + weight(x),
{
    assert(s.push(x).drop_last() =~= s);
}

/// Replacing an item takes its weight out and puts the new one's in.
pub proof fn lemma_total_update<T>(s: Seq<T>, i: int, x: T, weight: spec_fn(T) -> nat)
    requires
        0 <= i < s.len(),
    ensures
        total(s.update(i, x), weight) + weight(s[i]) == total(s, weight) + weight(x),
    decreases s.len(),
{
    if i == s.len() - 1 {
        assert(s.update(i, x).drop_last() =~= s.drop_last());
    } else {
        lemma_total_update(s.drop_last(), i, x, weight);
        assert(s.update(i, x).drop_last() =~= s.drop_last().update(i, x));
    }
}

/// Where no item weighs anything, the total is zero.
pub proof fn lemma_total_zero<T>(s: Seq<T>, weight: spec_fn(T) -> nat)
    requires
        forall|i: int| 0 <= i < s.len() ==> weight(#[trigger] s[i]) == 0,
    ensures
        total(s, weight) == 0,
    decreases s.len(),
{
    if s.len() > 0 {
        lemma_total_zero(s.drop_last(), weight);
    }
}

} // verus!
