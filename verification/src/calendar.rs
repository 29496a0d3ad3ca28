//! Calendar arithmetic: leap years, month lengths, days of the year, and the
//! weekday congruence anchored at 1968.

use vstd::prelude::*;
use crate::digits::{div_trunc, rem_trunc};

verus! {

/// The leap-year rule applied throughout: every fourth year, with no century
/// exception.
pub open spec fn is_leap(year: int) -> bool {
    year % 4 == 0
}

/// The number of days in a month; months outside 1..=12 count as 31.
pub open spec fn month_len(month: int, year: int) -> int {
    if month == 2 {
        if is_leap(year) {
            29
        } else {
            28
        }
    } else if month == 4 || month == 6 || month == 9 || month == 11 {
        30
    } else {
        31
    }
}

/// Days in all months before `month` of the given year, months past December
/// adding nothing.
pub open spec fn prior_days(month: nat, year: int) -> int
    decreases month,
{
    if month <= 1 {
        0
    } else if month > 12 {
        prior_days(12, year)
    } else {
        prior_days((month - 1) as nat, year) + month_len(month - 1, year)
    }
}

/// The month index clamped into the range the day-of-year sum walks.
pub open spec fn month_clamped(month: int) -> nat {
    if month < 1 {
        0
    } else if month > 12 {
        12
    } else {
        month as nat
    }
}

/// Day of the year of a date: days of the prior months plus the day itself.
pub open spec fn day_of_year(month: int, day: int, year: int) -> int {
    prior_days(month_clamped(month), year) + day
}

/// Weekday slot of January 1st, from the congruence anchored at 1968;
/// 1 stands for Monday.
pub open spec fn first_of_year(year: int) -> int {
    rem_trunc(div_trunc(3 + 5 * (year - 1968), 4), 7) + 1
}

/// Weekday slot of a date; values outside 1..=7 arise only for dates the
/// congruence does not reach.
pub open spec fn weekday_slot(month: int, day: int, year: int) -> int {
    rem_trunc(first_of_year(year) + day_of_year(month, day, year) - 2, 7) + 1
}

} // verus!
