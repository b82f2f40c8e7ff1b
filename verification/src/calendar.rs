//! Calendar dates: which dates exist, and the names of days and months.

use vstd::prelude::*;

verus! {

/// Whether `year` is a leap year of the Gregorian calendar.
pub open spec fn is_leap_year(year: int) -> bool {
    year % 4 == 0 && (year % 100 != 0 || year % 400 == 0)
}

/// The number of days of `month` in `year`.
pub open spec fn days_in_month(year: int, month: int) -> int {
    if month == 2 {
        if is_leap_year(year) {
            29
        } else {
            28
        }
    } else if month == 4 || month == 6 || month == 9 || month == 11 {
        30
    } else {
        31
    }
}

/// Whether the Gregorian calendar has the date `year`-`month`-`day`.
pub open spec fn is_calendar_date(year: int, month: int, day: int) -> bool {
    1 <= month <= 12 && 1 <= day <= days_in_month(year, month)
}

/// How many of the years from 0 up to, but not including, `year` are leap
/// years. The year 0 is one.
pub open spec fn leap_years_before(year: int) -> int {
    if year <= 0 {
        0
    } else {
        (year - 1) / 4 - (year - 1) / 100 + (year - 1) / 400 + 1
    }
}

/// How many days of `year` lie before the first of `month`.
pub open spec fn days_before_month(year: int, month: int) -> int {
    let leap: int = if month > 2 && is_leap_year(year) {
        1
    } else {
        0
    };
    leap + if month <= 1 {
        0int
    } else if month == 2 {
        31int
    } else if month == 3 {
        59int
    } else if month == 4 {
        90int
    } else if month == 5 {
        120int
    } else if month == 6 {
        151int
    } else if month == 7 {
        181int
    } else if month == 8 {
        212int
    } else if month == 9 {
        243int
    } else if month == 10 {
        273int
    } else if month == 11 {
        304int
    } else {
        334int
    }
}

/// How many days lie between 1 January of the year 0 and the date.
pub open spec fn day_number(year: int, month: int, day: int) -> int {
    365 * year + leap_years_before(year) + days_before_month(year, month) + day - 1
}

/// The day of the week on which a date falls, counted from Monday as 0.
/// In the Gregorian calendar carried back, 1 January of the year 0 is a
/// Saturday, and the days of the week follow one another without a gap.
pub open spec fn weekday_of_date(year: int, month: int, day: int) -> int {
    (day_number(year, month, day) + 5) % 7
}

/// Asks `chrono` for the day of the week of a date.
///
/// `chrono::NaiveDate::from_ymd_opt` makes a date of the Gregorian
/// calendar carried back and returns `None` where the month or the day is
/// out of range or the day does not exist in that month; years 0 to 9999
/// are well within its range. `Datelike::weekday` gives the date's day of
/// the week, and `Weekday::num_days_from_monday` numbers it from Monday as
/// 0 to Sunday as 6. That `chrono` finds the day of the week that the
/// count of days gives is taken on trust.
#[verifier::external_body]
pub(crate) fn weekday_on(year: i32, month: u32, day: u32) -> (weekday: Option<u8>)
    requires
        0 <= year <= 9999,
    ensures
        weekday is Some <==> is_calendar_date(year as int, month as int, day as int),
        weekday is Some ==> weekday->0 == weekday_of_date(year as int, month as int, day as int),
        weekday is Some ==> weekday->0 < 7,
{
    match chrono::NaiveDate::from_ymd_opt(year, month, day) {
        Some(date) => Some(chrono::Datelike::weekday(&date).num_days_from_monday() as u8),
        None => None,
    }
}

/// The English name of the weekday numbered `weekday`, Monday being 0.
pub open spec fn weekday_name(weekday: int) -> Seq<char> {
    if weekday == 0 {
        "Monday"@
    } else if weekday == 1 {
        "Tuesday"@
    } else if weekday == 2 {
        "Wednesday"@
    } else if weekday == 3 {
        "Thursday"@
    } else if weekday == 4 {
        "Friday"@
    } else if weekday == 5 {
        "Saturday"@
    } else {
        "Sunday"@
    }
}

/// The English name of the month numbered `month`, January being 1.
pub open spec fn month_name(month: int) -> Seq<char> {
    if month == 1 {
        "January"@
    } else if month == 2 {
        "February"@
    } else if month == 3 {
        "March"@
    } else if month == 4 {
        "April"@
    } else if month == 5 {
        "May"@
    } else if month == 6 {
        "June"@
    } else if month == 7 {
        "July"@
    } else if month == 8 {
        "August"@
    } else if month == 9 {
        "September"@
    } else if month == 10 {
        "October"@
    } else if month == 11 {
        "November"@
    } else {
        "December"@
    }
}

/// The name of a weekday, Monday being 0.
pub fn weekday_label(weekday: u8) -> (name: &'static str)
    ensures
        name@ == weekday_name(weekday as int),
{
    if weekday == 0 {
        "Monday"
    } else if weekday == 1 {
        "Tuesday"
    } else if weekday == 2 {
        "Wednesday"
    } else if weekday == 3 {
        "Thursday"
    } else if weekday == 4 {
        "Friday"
    } else if weekday == 5 {
        "Saturday"
    } else {
        "Sunday"
    }
}

/// The name of a month, January being 1.
pub fn month_label(month: u8) -> (name: &'static str)
    ensures
        name@ == month_name(month as int),
{
    if month == 1 {
        "January"
    } else if month == 2 {
        "February"
    } else if month == 3 {
        "March"
    } else if month == 4 {
        "April"
    } else if month == 5 {
        "May"
    } else if month == 6 {
        "June"
    } else if month == 7 {
        "July"
    } else if month == 8 {
        "August"
    } else if month == 9 {
        "September"
    } else if month == 10 {
        "October"
    } else if month == 11 {
        "November"
    } else {
        "December"
    }
}

} // verus!
