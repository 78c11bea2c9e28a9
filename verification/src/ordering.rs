//! Ascending arrangements of integers.

use vstd::prelude::*;
use vstd::relations::sorted_by;
use vstd::relations::total_ordering;
use vstd::seq_lib::lemma_sorted_unique;
use vstd::slice::slice_to_vec;

verus! {

/// No item is larger than one that follows it.
pub open spec fn ascending(items: Seq<i32>) -> bool {
    forall|i: int, j: int| 0 <= i <= j < items.len() ==> items[i] <= items[j]
}

/// `sorted` holds the items of `items`, each as often, in ascending order.
pub open spec fn arrangement_of(sorted: Seq<i32>, items: Seq<i32>) -> bool {
    &&& ascending(sorted)
    &&& sorted.len() == items.len()
    &&& sorted.to_multiset() == items.to_multiset()
}

/// The ascending arrangement of a list.
pub open spec fn ascending_of(items: Seq<i32>) -> Seq<i32> {
    choose|sorted: Seq<i32>| arrangement_of(sorted, items)
}

/// A list has one ascending arrangement only.
pub proof fn arrangement_unique(first: Seq<i32>, second: Seq<i32>, items: Seq<i32>)
    requires
        arrangement_of(first, items),
        arrangement_of(second, items),
    ensures
        first == second,
{
    let leq = |a: i32, b: i32| a <= b;
    assert(total_ordering(leq));
    assert(sorted_by(first, leq));
    assert(sorted_by(second, leq));
    lemma_sorted_unique(first, second, leq);
}

/// Calls the slice method `sort` of std on the vector. Trusted: afterwards
/// the vector holds the same items, each as often as before, in ascending
/// order.
#[verifier::external_body]
pub(crate) fn sort_ascending(items: &mut Vec<i32>)
    ensures
        arrangement_of(final(items)@, old(items)@),
{
    items.sort();
}

/// A copy of the list in ascending order.
pub fn sorted_copy(arr: &[i32]) -> (r: Vec<i32>)
    ensures
        r@ == ascending_of(arr@),
        arrangement_of(r@, arr@),
{
    let mut sorted = slice_to_vec(arr);
    sort_ascending(&mut sorted);
    proof {
        arrangement_unique(sorted@, ascending_of(arr@), arr@);
    }
    sorted
}

} // verus!
