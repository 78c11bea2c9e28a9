//! The smallest and the largest sum of four items of a list.

use vstd::prelude::*;
use vstd::string::StringExecFns;
use crate::decimal::append_signed_decimal;
use crate::decimal::signed_decimal;
use crate::ordering::ascending_of;
use crate::ordering::sorted_copy;

verus! {

/// The sum of the first four items.
pub open spec fn lowest_four(sorted: Seq<i32>) -> int {
    sorted[0] + sorted[1] + sorted[2] + sorted[3]
}

/// The sum of the last four items.
pub open spec fn highest_four(sorted: Seq<i32>) -> int {
    let n = sorted.len() as int;
    sorted[n - 4] + sorted[n - 3] + sorted[n - 2] + sorted[n - 1]
}

/// The sum of the four smallest and the sum of the four largest items of
/// a list of more than four; nothing for a shorter list.
pub fn min_and_max_sums(arr: &[i32]) -> (r: Option<(i64, i64)>)
    ensures
        r == if arr.len() > 4 {
            Some(
                (
                    lowest_four(ascending_of(arr@)) as i64,
                    highest_four(ascending_of(arr@)) as i64,
                ),
            )
        } else {
            None
        },
{
    if arr.len() > 4 {
        let sorted = sorted_copy(arr);
        let n: usize = sorted.len();
        let low: i64 = sorted[0] as i64 + sorted[1] as i64 + sorted[2] as i64 + sorted[3] as i64;
        let high: i64 = sorted[n - 4] as i64 + sorted[n - 3] as i64 + sorted[n - 2] as i64
            + sorted[n - 1] as i64;
        Some((low, high))
    } else {
        None
    }
}

/// The two sums in decimal with a blank between them; the empty text for a
/// list of four items or fewer.
pub fn min_and_max_sums_string(arr: &[i32]) -> (r: String)
    ensures
        r@ == if arr.len() > 4 {
            signed_decimal(lowest_four(ascending_of(arr@))) + seq![' '] + signed_decimal(
                highest_four(ascending_of(arr@)),
            )
        } else {
            Seq::<char>::empty()
        },
{
    match min_and_max_sums(arr) {
        None => String::new(),
        Some((smallest_sum, biggest_sum)) => {
            let mut text = String::new();
            append_signed_decimal(&mut text, smallest_sum);
            proof {
                reveal_strlit(" ");
                assert(" "@ =~= seq![' ']);
            }
            text.append(" ");
            append_signed_decimal(&mut text, biggest_sum);
            assert(text@ =~= signed_decimal(smallest_sum as int) + seq![' '] + signed_decimal(
                biggest_sum as int,
            ));
            text
        },
    }
}

} // verus!
