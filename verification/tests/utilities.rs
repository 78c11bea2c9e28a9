use textops::decimal::{append_decimal, append_signed_decimal, digit_text};
use textops::diag::{diagonal_difference, flatten, sum_strided};
use textops::lonely::{do_peek, find_lonely_integer, peek_lonely_integer};
use textops::minmax::{min_and_max_sums, min_and_max_sums_string};
use textops::ratio::plus_minus;
use textops::time::{convert_to_military, get_hours, value_of_digit};
use textops::zig_zag::zig_zag_array;

#[test]
fn test_diagonal_difference() {
    assert_eq!(diagonal_difference(&[vec![1,2,3], vec![4,5,6], vec![9,8,9]]), Some(2));
    assert_eq!(diagonal_difference(&[vec![11, 2, 4], vec![4, 5, 6], vec![10, 8, -12]]), Some(15));
}

#[test]
fn test_find_lonely_integer() {
    assert_eq!(find_lonely_integer(&[1,2,3,4,3,2,1]), Some(4));
    assert_eq!(find_lonely_integer(&[1,2,3,4,4,3,1]), Some(2));
    assert_eq!(find_lonely_integer(&[1,3]), None);
}

#[test]
fn test_min_and_max_sums() {
    assert_eq!(min_and_max_sums(&[1,3]), None);
    assert_eq!(min_and_max_sums(&[1,3,5,7,9]), Some((16, 24)));
    assert_eq!(min_and_max_sums(&[1,2,3,4,5]), Some((10, 14)));
    assert_eq!(min_and_max_sums(&[256741038, 623958417, 467905213, 714532089, 938071625]), Some((2063136757, 2744467344)));
}

#[test]
fn test_min_and_max_sums_string() {
    assert_eq!(min_and_max_sums_string(&[1,3]), "");
    assert_eq!(min_and_max_sums_string(&[1,3,5,7,9]), "16 24");
    assert_eq!(min_and_max_sums_string(&[1,2,3,4,5]), "10 14");
    assert_eq!(min_and_max_sums_string(&[256741038, 623958417, 467905213, 714532089, 938071625]), "2063136757 2744467344");
}

#[test]
fn test_plus_minus() {
    assert_eq!(plus_minus(&[1, 1, 0, -1, -1]), ((2, 5), (2, 5), (1, 5)));
    assert_eq!(plus_minus(&[-4, 3, -9, 0, 4, 1]), ((3, 6), (2, 6), (1, 6)));
    assert_eq!(plus_minus(&[1, 2, 3, -1, -2, -3, 0, 0]), ((3, 8), (3, 8), (2, 8)));
}

#[test]
fn test_convert_to_military() {
    assert_eq!(convert_to_military("07:05:45AM"), "07:05:45");
    assert_eq!(convert_to_military("07:05:45PM"), "19:05:45");
    assert_eq!(convert_to_military("07:05:45"), "07:05:45");
    assert_eq!(convert_to_military("12:01:00AM"), "00:01:00");
    assert_eq!(convert_to_military("12:01:00PM"), "12:01:00");
    assert_eq!(convert_to_military("12:05:45"), "12:05:45");
    assert_eq!(convert_to_military("00:01:00"), "00:01:00");
}

#[test]
fn test_zig_zag_array() {
    assert_eq!(zig_zag_array(&[2,3,5,1,4]), vec![1,2,5,4,3]);
}

#[test]
fn diagonal_difference_by_shape() {
    assert_eq!(diagonal_difference(&[vec![1, 2, 3], vec![4, 5, 6]]), None);
    assert_eq!(diagonal_difference(&[vec![7]]), Some(0));
    assert_eq!(diagonal_difference(&[vec![1, 5], vec![2, 1]]), Some(5));
    assert_eq!(diagonal_difference(&[vec![i32::MAX, 0], vec![0, 0]]), Some(i32::MAX));
    assert_eq!(
        diagonal_difference(&[vec![i32::MAX, i32::MAX], vec![i32::MAX, i32::MAX]]),
        Some(0)
    );
    assert_eq!(diagonal_difference(&[vec![0, 5], vec![3, -4]]), Some(12));
    assert_eq!(diagonal_difference(&[vec![1, 2], vec![3]]), Some(4));
    assert_eq!(diagonal_difference(&[vec![1, 2], vec![3, 4, 5]]), Some(0));
    assert_eq!(diagonal_difference(&[vec![], vec![3, 4, 5]]), None);
}

#[test]
fn rows_end_to_end_and_strides() {
    assert_eq!(flatten(&[vec![1, 2], vec![], vec![3]]), vec![1, 2, 3]);
    assert_eq!(flatten(&[]), Vec::<i32>::new());
    let items = vec![10, 20, 30, 40, 50];
    assert_eq!(sum_strided(&items, 0, 2, 3), 90);
    assert_eq!(sum_strided(&items, 1, 3, 5), 70);
    assert_eq!(sum_strided(&items, 4, 0, 3), 150);
    assert_eq!(sum_strided(&items, 5, 1, 3), 0);
    assert_eq!(sum_strided(&items, 0, 1, 0), 0);
}

#[test]
fn lonely_integer_edges() {
    assert_eq!(find_lonely_integer(&[]), None);
    assert_eq!(find_lonely_integer(&[9]), Some(9));
    assert_eq!(find_lonely_integer(&[5, 5, 7]), Some(7));
    assert_eq!(find_lonely_integer(&[-1, 3, 3]), Some(-1));
    assert_eq!(do_peek(&[4, 6], 1), Some(6));
    assert_eq!(do_peek(&[4, 6], 2), None);
    assert_eq!(peek_lonely_integer(&[4, 4, 6], 0), None);
    assert_eq!(peek_lonely_integer(&[4, 4, 6], 2), Some(2));
    assert_eq!(peek_lonely_integer(&[4, 4, 6], 3), None);
}

#[test]
fn sums_of_unsorted_and_negative_items() {
    assert_eq!(min_and_max_sums(&[9, -7, 5, 3, 1, 0]), Some((-3, 18)));
    assert_eq!(min_and_max_sums(&[1, 2, 3, 4]), None);
    assert_eq!(min_and_max_sums(&[i32::MAX; 5]), Some((8589934588, 8589934588)));
    assert_eq!(min_and_max_sums_string(&[9, -7, 5, 3, 1, 0]), "-3 18");
    assert_eq!(min_and_max_sums_string(&[i32::MIN; 5]), "-8589934592 -8589934592");
    assert_eq!(min_and_max_sums_string(&[0; 5]), "0 0");
}

#[test]
fn plus_minus_counts_add_up() {
    assert_eq!(plus_minus(&[]), ((0, 0), (0, 0), (0, 0)));
    let ((pos, n), (neg, _), (zero, _)) = plus_minus(&[3, -2, 0, 0, 8, -1, -1]);
    assert_eq!((pos, neg, zero, n), (2, 3, 2, 7));
    assert_eq!(pos + neg + zero, n);
}

#[test]
fn zig_zag_of_short_and_even_lists() {
    assert_eq!(zig_zag_array(&[7]), vec![7]);
    assert_eq!(zig_zag_array(&[2, 1]), vec![1, 2, 2]);
    assert_eq!(zig_zag_array(&[4, 1, 3, 2]), vec![1, 2, 4, 4, 3]);
    assert_eq!(zig_zag_array(&[3, 1, 2]), vec![1, 3, 2]);
}

#[test]
fn military_time_edges() {
    assert_eq!(convert_to_military("01:00:00PM"), "13:00:00");
    assert_eq!(convert_to_military("11:59:59PM"), "23:59:59");
    assert_eq!(convert_to_military("11:59:59AM"), "11:59:59");
    assert_eq!(convert_to_military("+7:05:45PM"), "19:05:45");
    assert_eq!(convert_to_military("99:AM"), "99:");
    assert_eq!(convert_to_military("99:PM"), "111:");
    assert_eq!(convert_to_military("12"), "12");
    assert_eq!(get_hours("07:05:45AM"), 7);
    assert_eq!(get_hours("12"), 12);
    assert_eq!(value_of_digit('8'), 8);
}

#[test]
fn decimal_texts() {
    let mut text = String::from("n=");
    append_decimal(&mut text, 0);
    assert_eq!(text, "n=0");
    append_decimal(&mut text, 1090);
    assert_eq!(text, "n=01090");
    let mut text = String::new();
    append_decimal(&mut text, u64::MAX);
    assert_eq!(text, "18446744073709551615");
    let mut text = String::new();
    append_signed_decimal(&mut text, i64::MIN);
    assert_eq!(text, "-9223372036854775808");
    let mut text = String::new();
    append_signed_decimal(&mut text, -5);
    append_signed_decimal(&mut text, 42);
    assert_eq!(text, "-542");
    assert_eq!(digit_text(0), "0");
    assert_eq!(digit_text(9), "9");
}
