//! Ascending order of latencies.

use vstd::prelude::*;
use vstd::relations::{sorted_by, total_ordering};
use vstd::seq_lib::lemma_sorted_unique;

verus! {

/// No value of `s` is followed by a smaller one.
pub open spec fn ascending(s: Seq<u64>) -> bool {
    forall|i: int, j: int| 0 <= i <= j < s.len() ==> s[i] <= s[j]
}

/// The order of unsigned integers.
pub open spec fn at_most() -> spec_fn(u64, u64) -> bool {
    |a: u64, b: u64| a <= b
}

/// The values of `s`, each as often as in `s`, in ascending order.
pub open spec fn ascending_copy(s: Seq<u64>) -> Seq<u64> {
    s.sort_by(at_most())
}

/// `ascending_copy(s)` is ascending and holds the values of `s`, each as often as `s` does.
pub proof fn lemma_ascending_copy(s: Seq<u64>)
    ensures
        ascending(ascending_copy(s)),
        ascending_copy(s).to_multiset() == s.to_multiset(),
        ascending_copy(s).len() == s.len(),
{
    assert(total_ordering(at_most()));
    s.lemma_sort_by_ensures(at_most());
    let t = ascending_copy(s);
    assert(sorted_by(t, at_most()));
    assert forall|i: int, j: int| 0 <= i <= j < t.len() implies t[i] <= t[j] by {
        if i < j {
            assert(at_most()(t[i], t[j]));
        }
    }
    s.to_multiset_ensures();
    t.to_multiset_ensures();
}

/// An ascending sequence with the values of `s`, each as often as in `s`, is `ascending_copy(s)`.
pub proof fn lemma_ascending_unique(s: Seq<u64>, t: Seq<u64>)
    requires
        ascending(t),
        t.to_multiset() == s.to_multiset(),
    ensures
        t == ascending_copy(s),
{
    lemma_ascending_copy(s);
    let u = ascending_copy(s);
    assert(total_ordering(at_most()));
    assert(sorted_by(t, at_most())) by {
        assert forall|i: int, j: int| 0 <= i < j < t.len() implies #[trigger] at_most()(
            t[i],
            t[j],
        ) by {}
    }
    assert(sorted_by(u, at_most())) by {
        assert forall|i: int, j: int| 0 <= i < j < u.len() implies #[trigger] at_most()(
            u[i],
            u[j],
        ) by {}
    }
    lemma_sorted_unique(t, u, at_most());
}

/// Two sequences with the same values, each as often, hold the same values.
pub proof fn lemma_same_values(s: Seq<u64>, t: Seq<u64>, value: u64)
    requires
        s.to_multiset() == t.to_multiset(),
        s.contains(value),
    ensures
        t.contains(value),
{
    s.to_multiset_ensures();
    t.to_multiset_ensures();
    assert(s.to_multiset().count(value) > 0);
    assert(t.to_multiset().count(value) > 0);
}

/// `slice::sort` on a vector of unsigned integers: afterwards the vector is in
/// ascending order and holds the values it held before, each as often.
#[verifier::external_body]
fn sort_in_place(v: &mut Vec<u64>)
    ensures
        ascending(final(v)@),
        final(v)@.to_multiset() == old(v)@.to_multiset(),
{
    v.sort();
}

/// A copy of `v` in ascending order.
pub fn sorted_copy(v: &Vec<u64>) -> (sorted: Vec<u64>)
    ensures
        sorted@ == ascending_copy(v@),
        sorted@.len() == v@.len(),
{
    let mut sorted = v.clone();
    sort_in_place(&mut sorted);
    proof {
        lemma_ascending_unique(v@, sorted@);
        lemma_ascending_copy(v@);
    }
    sorted
}

} // verus!
