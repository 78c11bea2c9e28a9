//! Twelve-hour timestamps turned into twenty-four-hour ones.

use vstd::prelude::*;
use vstd::string::StrSliceExecFns;
use vstd::string::StringExecFns;
use crate::decimal::append_decimal;
use crate::decimal::decimal;

verus! {

/// A decimal digit.
pub open spec fn is_digit(c: char) -> bool {
    '0' <= c <= '9'
}

/// The number that a decimal digit stands for.
pub open spec fn digit_value(c: char) -> int {
    c as int - '0' as int
}

/// The first two characters read as a small number: two digits, or a plus
/// sign and a digit.
pub open spec fn hours_readable(timestamp: Seq<char>) -> bool {
    &&& timestamp.len() >= 2
    &&& is_digit(timestamp[1])
    &&& is_digit(timestamp[0]) || timestamp[0] == '+'
}

/// The number that the first two characters stand for.
pub open spec fn hours_of(timestamp: Seq<char>) -> int {
    if timestamp[0] == '+' {
        digit_value(timestamp[1])
    } else {
        10 * digit_value(timestamp[0]) + digit_value(timestamp[1])
    }
}

/// The timestamp ends in `AM`.
pub open spec fn before_noon(timestamp: Seq<char>) -> bool {
    let n = timestamp.len() as int;
    n >= 2 && timestamp[n - 2] == 'A' && timestamp[n - 1] == 'M'
}

/// The timestamp ends in `PM`.
pub open spec fn after_noon(timestamp: Seq<char>) -> bool {
    let n = timestamp.len() as int;
    n >= 2 && timestamp[n - 2] == 'P' && timestamp[n - 1] == 'M'
}

/// The hour on the twenty-four-hour clock.
pub open spec fn military_hours(timestamp: Seq<char>) -> int {
    let hours = hours_of(timestamp);
    if before_noon(timestamp) {
        if hours == 12 {
            0
        } else {
            hours
        }
    } else if hours == 12 {
        12
    } else {
        hours + 12
    }
}

/// A number in decimal, with a leading zero where it has one digit.
pub open spec fn two_digits(n: nat) -> Seq<char> {
    if n < 10 {
        seq!['0'] + decimal(n)
    } else {
        decimal(n)
    }
}

/// The timestamp on the twenty-four-hour clock: the new hour, a colon, and
/// what stood between the fourth character and the suffix. A timestamp
/// without suffix stays as it is.
pub open spec fn military_of(timestamp: Seq<char>) -> Seq<char> {
    if before_noon(timestamp) || after_noon(timestamp) {
        two_digits(military_hours(timestamp) as nat) + seq![':'] + timestamp.subrange(
            3,
            timestamp.len() - 2,
        )
    } else {
        timestamp
    }
}

/// The number that a decimal digit stands for.
pub fn value_of_digit(c: char) -> (r: u8)
    requires
        is_digit(c),
    ensures
        r == digit_value(c),
{
    (c as u32 - '0' as u32) as u8
}

/// The hour that a timestamp starts with.
pub fn get_hours(timestamp: &str) -> (r: u8)
    requires
        hours_readable(timestamp@),
    ensures
        r == hours_of(timestamp@),
        r <= 99,
{
    let first = timestamp.get_char(0);
    let second = timestamp.get_char(1);
    if first == '+' {
        value_of_digit(second)
    } else {
        10 * value_of_digit(first) + value_of_digit(second)
    }
}

/// Turns a timestamp with the suffix `AM` or `PM` into one on the
/// twenty-four-hour clock, and hands any other timestamp back as it is.
pub fn convert_to_military(timestamp: &str) -> (r: String)
    requires
        hours_readable(timestamp@),
        before_noon(timestamp@) || after_noon(timestamp@) ==> timestamp@.len() >= 5,
    ensures
        r@ == military_of(timestamp@),
{
    let hours = get_hours(timestamp);
    let n: usize = timestamp.unicode_len();
    let last = timestamp.get_char(n - 1);
    let before_last = timestamp.get_char(n - 2);
    let morning = before_last == 'A' && last == 'M';
    let evening = before_last == 'P' && last == 'M';
    if morning || evening {
        let new_hours: u8 = if morning {
            if hours == 12 {
                0
            } else {
                hours
            }
        } else if hours == 12 {
            12
        } else {
            hours + 12
        };
        let mut text = String::new();
        proof {
            reveal_strlit("0");
            reveal_strlit(":");
        }
        if new_hours < 10 {
            text.append("0");
        }
        append_decimal(&mut text, new_hours as u64);
        assert(text@ =~= two_digits(new_hours as nat));
        text.append(":");
        text.append(timestamp.substring_char(3, n - 2));
        assert(text@ =~= military_of(timestamp@));
        text
    } else {
        timestamp.to_owned()
    }
}

} // verus!
