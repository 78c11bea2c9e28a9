//! The difference between the two diagonals of a matrix, read off its
//! rows laid end to end.

use vstd::prelude::*;

verus! {

/// The rows laid end to end.
pub open spec fn flattened(rows: Seq<Vec<i32>>) -> Seq<i32>
    decreases rows.len(),
{
    if rows.len() == 0 {
        Seq::<i32>::empty()
    } else {
        flattened(rows.drop_last()) + rows.last()@
    }
}

/// The item at an index, counting an index outside the list as zero.
pub open spec fn item_or_zero(items: Seq<i32>, at: int) -> int {
    if 0 <= at < items.len() {
        items[at] as int
    } else {
        0
    }
}

/// The sum of the items at `start`, `start + step`, and so on, `count`
/// indices in all, leaving out those behind the end.
pub open spec fn strided_sum(items: Seq<i32>, start: int, step: int, count: int) -> int
    decreases count,
{
    if count <= 0 {
        0
    } else {
        strided_sum(items, start, step, count - 1) + item_or_zero(
            items,
            start + (count - 1) * step,
        )
    }
}

/// The absolute difference between the sum along the diagonal from the top
/// left and the sum along the one from the top right.
pub open spec fn diagonal_gap(rows: Seq<Vec<i32>>) -> int {
    let n = rows.len() as int;
    let flat = flattened(rows);
    let gap = strided_sum(flat, 0, n + 1, n) - strided_sum(flat, n - 1, n - 1, n);
    if gap < 0 {
        -gap
    } else {
        gap
    }
}

/// A strided sum is bounded by the number of its indices.
pub proof fn strided_sum_bounds(items: Seq<i32>, start: int, step: int, count: int)
    requires
        0 <= count,
    ensures
        -0x8000_0000 * count <= strided_sum(items, start, step, count) <= 0x7fff_ffff * count,
    decreases count,
{
    if count > 0 {
        strided_sum_bounds(items, start, step, count - 1);
    }
}

/// Every row is as long as the matrix has rows.
pub open spec fn square(rows: Seq<Vec<i32>>) -> bool {
    forall|i: int| 0 <= i < rows.len() ==> (#[trigger] rows[i])@.len() == rows.len()
}

/// The sum of the first `upto` items of the diagonal from the top left.
pub open spec fn main_diagonal(rows: Seq<Vec<i32>>, upto: int) -> int
    decreases upto,
{
    if upto <= 0 {
        0
    } else {
        main_diagonal(rows, upto - 1) + rows[upto - 1]@[upto - 1]
    }
}

/// The sum of the first `upto` items of the diagonal from the top right.
pub open spec fn anti_diagonal(rows: Seq<Vec<i32>>, upto: int) -> int
    decreases upto,
{
    if upto <= 0 {
        0
    } else {
        anti_diagonal(rows, upto - 1) + rows[upto - 1]@[rows.len() - upto]
    }
}

/// The first `m` rows of a square matrix, laid end to end, have `m * n`
/// items.
pub proof fn length_of_rows(rows: Seq<Vec<i32>>, m: int)
    requires
        square(rows),
        0 <= m <= rows.len(),
    ensures
        flattened(rows.take(m)).len() == m * (rows.len() as int),
    decreases m,
{
    let n = rows.len() as int;
    if m == 0 {
        assert(rows.take(0) =~= Seq::<Vec<i32>>::empty());
        assert(m * n == 0) by (nonlinear_arith)
            requires
                m == 0,
        ;
    } else {
        length_of_rows(rows, m - 1);
        assert(rows.take(m).drop_last() =~= rows.take(m - 1));
        assert(rows.take(m).last() == rows[m - 1]);
        assert(rows[m - 1]@.len() == n);
        assert((m - 1) * n + n == m * n) by (nonlinear_arith);
    }
}

/// Where the first `m` rows of a square matrix are laid end to end, the
/// item of row `i` and column `j` stands at `i * n + j`.
pub proof fn cell_of_rows(rows: Seq<Vec<i32>>, m: int, i: int, j: int)
    requires
        square(rows),
        0 <= i < m <= rows.len(),
        0 <= j < rows.len(),
    ensures
        0 <= i * (rows.len() as int) + j < flattened(rows.take(m)).len(),
        flattened(rows.take(m))[i * (rows.len() as int) + j] == rows[i]@[j],
    decreases m,
{
    let n = rows.len() as int;
    let whole = flattened(rows.take(m));
    let front = flattened(rows.take(m - 1));
    length_of_rows(rows, m);
    length_of_rows(rows, m - 1);
    assert(rows.take(m).drop_last() =~= rows.take(m - 1));
    assert(rows.take(m).last() == rows[m - 1]);
    assert(whole == front + rows[m - 1]@);
    assert(rows[m - 1]@.len() == n);
    assert(0 <= i * n) by (nonlinear_arith)
        requires
            0 <= i,
            0 <= n,
    ;
    if i < m - 1 {
        cell_of_rows(rows, m - 1, i, j);
    } else {
        assert(i * n == (m - 1) * n);
        assert(whole[i * n + j] == rows[m - 1]@[i * n + j - front.len()]);
    }
}

/// In a square matrix the two strided sums run along the two diagonals.
pub proof fn strides_are_diagonals(rows: Seq<Vec<i32>>, upto: int)
    requires
        square(rows),
        0 <= upto <= rows.len(),
    ensures
        strided_sum(flattened(rows), 0, (rows.len() + 1) as int, upto) == main_diagonal(
            rows,
            upto,
        ),
        strided_sum(flattened(rows), rows.len() - 1, rows.len() - 1, upto) == anti_diagonal(
            rows,
            upto,
        ),
    decreases upto,
{
    let n = rows.len() as int;
    if upto > 0 {
        strides_are_diagonals(rows, upto - 1);
        let i = upto - 1;
        assert(rows.take(n) =~= rows);
        cell_of_rows(rows, n, i, i);
        cell_of_rows(rows, n, i, n - 1 - i);
        assert(i * (n + 1) == i * n + i) by (nonlinear_arith);
        assert(n - 1 + i * (n - 1) == i * n + (n - 1 - i)) by (nonlinear_arith);
    }
}

/// Lays the rows end to end.
pub fn flatten(arr: &[Vec<i32>]) -> (flat: Vec<i32>)
    ensures
        flat@ == flattened(arr@),
{
    let mut flat: Vec<i32> = Vec::new();
    let mut i: usize = 0;
    assert(arr@.take(0) =~= Seq::<Vec<i32>>::empty());
    while i < arr.len()
        invariant
            i <= arr.len(),
            flat@ == flattened(arr@.take(i as int)),
        decreases arr.len() - i,
    {
        let row = &arr[i];
        let ghost before = flat@;
        let mut j: usize = 0;
        while j < row.len()
            invariant
                j <= row.len(),
                flat@ == before + row@.take(j as int),
            decreases row.len() - j,
        {
            flat.push(row[j]);
            assert(row@.take(j + 1) =~= row@.take(j as int).push(row@[j as int]));
            assert(flat@ =~= before + row@.take(j + 1));
            j = j + 1;
        }
        proof {
            assert(row@.take(j as int) =~= row@);
            assert(arr@.take(i + 1).drop_last() =~= arr@.take(i as int));
            assert(arr@.take(i + 1).last() == arr@[i as int]);
        }
        i = i + 1;
    }
    assert(arr@.take(i as int) =~= arr@);
    flat
}

/// Sums the items at `start`, `start + step`, and so on, `count` indices in
/// all, leaving out those behind the end.
pub fn sum_strided(items: &Vec<i32>, start: usize, step: u128, count: usize) -> (r: i128)
    requires
        step <= 0x1_0000_0000_0000_0000,
    ensures
        r == strided_sum(items@, start as int, step as int, count as int),
{
    let mut sum: i128 = 0;
    let mut at: u128 = start as u128;
    let mut inside = true;
    let mut k: usize = 0;
    while k < count
        invariant
            k <= count,
            step <= 0x1_0000_0000_0000_0000,
            inside ==> at == start + k * step,
            inside ==> at <= 0x3_0000_0000_0000_0000,
            !inside ==> start + k * step >= items.len(),
            sum == strided_sum(items@, start as int, step as int, k as int),
        decreases count - k,
    {
        proof {
            strided_sum_bounds(items@, start as int, step as int, k as int);
            assert((k + 1) * step == k * step + step) by (nonlinear_arith);
            assert(0 <= k * step) by (nonlinear_arith)
                requires
                    0 <= k,
                    0 <= step,
            ;
        }
        if inside && at < items.len() as u128 {
            sum = sum + items[at as usize] as i128;
            at = at + step;
        } else {
            inside = false;
        }
        k = k + 1;
    }
    sum
}

/// The absolute difference of the two diagonal sums of a matrix whose
/// first row is as long as the matrix has rows; nothing for any other
/// shape. The difference must fit the result.
pub fn diagonal_difference(arr: &[Vec<i32>]) -> (r: Option<i32>)
    requires
        arr.len() > 0,
        arr.len() == arr[0]@.len() ==> diagonal_gap(arr@) <= i32::MAX,
    ensures
        r == if arr.len() == arr[0]@.len() {
            Some(diagonal_gap(arr@) as i32)
        } else {
            None
        },
{
    let num_rows: usize = arr.len();
    let num_columns: usize = arr[0].len();
    if num_rows == num_columns {
        let flattened = flatten(arr);
        let first_sum = sum_strided(&flattened, 0, num_rows as u128 + 1, num_rows);
        let second_sum = sum_strided(
            &flattened,
            num_rows - 1,
            (num_rows - 1) as u128,
            num_rows,
        );
        proof {
            strided_sum_bounds(flattened@, 0, num_rows + 1, num_rows as int);
            strided_sum_bounds(flattened@, num_rows - 1, num_rows - 1, num_rows as int);
        }
        let diff: i128 = first_sum - second_sum;
        let gap: i128 = if diff < 0 {
            -diff
        } else {
            diff
        };
        Some(gap as i32)
    } else {
        None
    }
}

} // verus!
