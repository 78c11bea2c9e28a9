//! Shares of positive, negative and zero items in a list.

use vstd::prelude::*;

verus! {

/// How many of the items are positive.
pub open spec fn positives(items: Seq<i32>) -> int
    decreases items.len(),
{
    if items.len() == 0 {
        0
    } else {
        positives(items.drop_last()) + if items.last() > 0 {
            1int
        } else {
            0int
        }
    }
}

/// How many of the items are negative.
pub open spec fn negatives(items: Seq<i32>) -> int
    decreases items.len(),
{
    if items.len() == 0 {
        0
    } else {
        negatives(items.drop_last()) + if items.last() < 0 {
            1int
        } else {
            0int
        }
    }
}

/// How many of the items are zero.
pub open spec fn zeros(items: Seq<i32>) -> int
    decreases items.len(),
{
    if items.len() == 0 {
        0
    } else {
        zeros(items.drop_last()) + if items.last() == 0 {
            1int
        } else {
            0int
        }
    }
}

/// Every item is positive, negative or zero, so the three counts add up
/// to the length and none is negative.
pub proof fn counts_partition(items: Seq<i32>)
    ensures
        positives(items) >= 0,
        negatives(items) >= 0,
        zeros(items) >= 0,
        positives(items) + negatives(items) + zeros(items) == items.len(),
    decreases items.len(),
{
    if items.len() > 0 {
        counts_partition(items.drop_last());
    }
}

/// The counts of positive, negative and zero items, each paired with the
/// number of items.
pub fn plus_minus(arr: &[i32]) -> (r: ((i32, i32), (i32, i32), (i32, i32)))
    requires
        arr.len() <= i32::MAX,
    ensures
        r.0 == (positives(arr@) as i32, arr.len() as i32),
        r.1 == (negatives(arr@) as i32, arr.len() as i32),
        r.2 == (zeros(arr@) as i32, arr.len() as i32),
        r.0.0 + r.1.0 + r.2.0 == arr.len(),
{
    let count: i32 = arr.len() as i32;
    let mut pos: i32 = 0;
    let mut neg: i32 = 0;
    let mut zero: i32 = 0;
    let mut i: usize = 0;
    assert(arr@.take(0) =~= Seq::<i32>::empty());
    while i < arr.len()
        invariant
            i <= arr.len(),
            arr.len() <= i32::MAX,
            pos == positives(arr@.take(i as int)),
            neg == negatives(arr@.take(i as int)),
            zero == zeros(arr@.take(i as int)),
        decreases arr.len() - i,
    {
        proof {
            counts_partition(arr@.take(i as int));
            assert(arr@.take(i + 1).drop_last() =~= arr@.take(i as int));
        }
        let x = arr[i];
        if x > 0 {
            pos = pos + 1;
        } else if x < 0 {
            neg = neg + 1;
        } else {
            zero = zero + 1;
        }
        i = i + 1;
    }
    proof {
        assert(arr@.take(i as int) =~= arr@);
        counts_partition(arr@);
    }
    ((pos, count), (neg, count), (zero, count))
}

} // verus!
