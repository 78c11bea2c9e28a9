//! The item of a list that has no partner.

use vstd::prelude::*;
use crate::ordering::ascending_of;
use crate::ordering::sorted_copy;

verus! {

/// The item at an index, if the index lies within the list.
pub open spec fn peeked(items: Seq<i32>, at: int) -> Option<i32> {
    if 0 <= at < items.len() {
        Some(items[at])
    } else {
        None
    }
}

/// The first index, counted from `from` in steps of two, whose item differs
/// from the next one or is the last.
pub open spec fn first_unpaired(sorted: Seq<i32>, from: int) -> int
    decreases sorted.len() - from,
{
    if from < 0 || from + 1 >= sorted.len() || sorted[from] != sorted[from + 1] {
        from
    } else {
        first_unpaired(sorted, from + 2)
    }
}

/// The item at `peek_at`, or nothing behind the end.
pub fn do_peek(arr: &[i32], peek_at: usize) -> (r: Option<i32>)
    ensures
        r == peeked(arr@, peek_at as int),
{
    if peek_at < arr.len() {
        Some(arr[peek_at])
    } else {
        None
    }
}

/// `peek_at` itself where the item there differs from the next one, an item
/// counting as different from a missing one and two missing ones as equal.
pub fn peek_lonely_integer(arr: &[i32], peek_at: usize) -> (r: Option<usize>)
    requires
        peek_at < usize::MAX,
    ensures
        r == if peeked(arr@, peek_at as int) != peeked(arr@, peek_at + 1) {
            Some(peek_at)
        } else {
            None
        },
{
    let peek_el = do_peek(arr, peek_at);
    let next_el = do_peek(arr, peek_at + 1);
    let differ = match (peek_el, next_el) {
        (Some(a), Some(b)) => a != b,
        (None, None) => false,
        _ => true,
    };
    if differ {
        Some(peek_at)
    } else {
        None
    }
}

/// In a list of odd length, the first item of the ascending arrangement,
/// taken in pairs, that is not followed by its equal. Nothing for a list of
/// even length.
pub fn find_lonely_integer(arr: &[i32]) -> (r: Option<i32>)
    ensures
        r == if arr.len() % 2 == 1 {
            Some(ascending_of(arr@)[first_unpaired(ascending_of(arr@), 0)])
        } else {
            None
        },
{
    if arr.len() % 2 == 1 {
        let sorted = sorted_copy(arr);
        let n: usize = sorted.len();
        let mut index: usize = 0;
        let mut found: Option<usize> = None;
        while found.is_none()
            invariant
                n == sorted.len(),
                n % 2 == 1,
                index % 2 == 0,
                index < n,
                first_unpaired(sorted@, 0) == first_unpaired(sorted@, index as int),
                found matches Some(at) ==> at == index && first_unpaired(sorted@, index as int)
                    == index,
            decreases n - index, found.is_none() as int,
        {
            found = peek_lonely_integer(sorted.as_slice(), index);
            if found.is_none() {
                index = index + 2;
            }
        }
        Some(sorted[index])
    } else {
        None
    }
}

} // verus!
