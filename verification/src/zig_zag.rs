//! The zig-zag arrangement of a list: up to the largest item, then down.

use vstd::prelude::*;
use crate::ordering::ascending_of;
use crate::ordering::sorted_copy;

verus! {

/// The lower half of an ascending list, its last item, and the next
/// half-length of items in descending order.
pub open spec fn zig_zag_of(sorted: Seq<i32>) -> Seq<i32> {
    let half = sorted.len() as int / 2;
    sorted.take(half).push(sorted.last()) + sorted.subrange(half, 2 * half).reverse()
}

/// The zig-zag arrangement of a list that is not empty.
pub fn zig_zag_array(arr: &[i32]) -> (r: Vec<i32>)
    requires
        arr.len() > 0,
    ensures
        r@ == zig_zag_of(ascending_of(arr@)),
        r.len() == 2 * (arr.len() / 2) + 1,
{
    let sorted = sorted_copy(arr);
    let n: usize = sorted.len();
    let last = sorted[n - 1];
    let to_take: usize = n / 2;
    let mut result: Vec<i32> = Vec::new();
    let mut i: usize = 0;
    while i < to_take
        invariant
            i <= to_take,
            to_take == n / 2,
            n == sorted.len(),
            result@ == sorted@.take(i as int),
        decreases to_take - i,
    {
        result.push(sorted[i]);
        assert(sorted@.take(i + 1) =~= sorted@.take(i as int).push(sorted@[i as int]));
        i = i + 1;
    }
    result.push(last);
    let ghost head = result@;
    let ghost tail = sorted@.subrange(to_take as int, 2 * to_take).reverse();
    let mut k: usize = 0;
    while k < to_take
        invariant
            k <= to_take,
            to_take == n / 2,
            n == sorted.len(),
            tail == sorted@.subrange(to_take as int, 2 * to_take).reverse(),
            tail.len() == to_take,
            result@ == head + tail.take(k as int),
        decreases to_take - k,
    {
        result.push(sorted[2 * to_take - 1 - k]);
        assert(tail.take(k + 1) =~= tail.take(k as int).push(tail[k as int]));
        assert(result@ =~= head + tail.take(k + 1));
        k = k + 1;
    }
    assert(tail.take(to_take as int) =~= tail);
    result
}

} // verus!
