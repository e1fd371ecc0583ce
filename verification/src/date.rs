//! Calendar dates as the API's date parameters take them.

use crate::text::digit_char;
use vstd::prelude::*;

verus! {

/// True when `year` is a leap year of the proleptic Gregorian calendar.
pub open spec fn is_leap_year(year: int) -> bool {
    year % 4 == 0 && (year % 100 != 0 || year % 400 == 0)
}

/// The number of days of `month` in `year`, for `1 <= month <= 12`.
pub open spec fn days_in_month(year: int, month: int) -> int {
    if month == 2 {
        if is_leap_year(year) {
            29
        } else {
            28
        }
    } else if month == 4 || month == 6 || month == 9 || month == 11 {
        30
    } else {
        31
    }
}

/// True when `year`, `month` and `day` name a day of the proleptic
/// Gregorian calendar in a year from -9999 to 9999.
pub open spec fn is_calendar_date(year: int, month: int, day: int) -> bool {
    &&& -9999 <= year <= 9999
    &&& 1 <= month <= 12
    &&& 1 <= day <= days_in_month(year, month)
}

/// `n` as two decimal digits, for `0 <= n <= 99`.
pub open spec fn two_digits(n: int) -> Seq<char> {
    seq![digit_char(n / 10), digit_char(n % 10)]
}

/// The ISO 8601 calendar form of a date: the year as four digits, after a
/// minus sign if it is negative, then month and day as two digits each,
/// with hyphens between them.
pub open spec fn date_text(year: int, month: int, day: int) -> Seq<char> {
    let sign = if year < 0 {
        seq!['-']
    } else {
        Seq::<char>::empty()
    };
    let magnitude = if year < 0 {
        -year
    } else {
        year
    };
    sign + two_digits(magnitude / 100) + two_digits(magnitude % 100) + seq!['-'] + two_digits(month)
        + seq!['-'] + two_digits(day)
}

/// Validates a calendar date with `time::Date::from_calendar_date` (the
/// month converted by `time::Month::try_from`) and renders the date with
/// its `Display` implementation.
///
/// Trusted: the date is accepted exactly when it is a day of the proleptic
/// Gregorian calendar in the years -9999 to 9999, and an accepted date
/// renders as `date_text` says.
#[verifier::external_body]
fn calendar_date_text(year: i32, month: u8, day: u8) -> (r: Option<String>)
    ensures
        r is Some <==> is_calendar_date(year as int, month as int, day as int),
        r matches Some(text) ==> text@ == date_text(year as int, month as int, day as int),
{
    let month = time::Month::try_from(month).ok()?;
    let date = time::Date::from_calendar_date(year, month, day).ok()?;
    Some(date.to_string())
}

/// The mathematical view of a `Date`.
pub struct CalendarDate {
    pub year: int,
    pub month: int,
    pub day: int,
}

/// A day of the proleptic Gregorian calendar.
#[derive(Debug)]
pub struct Date {
    year: i32,
    month: u8,
    day: u8,
    text: String,
}

impl View for Date {
    type V = CalendarDate;

    closed spec fn view(&self) -> CalendarDate {
        CalendarDate { year: self.year as int, month: self.month as int, day: self.day as int }
    }
}

impl Date {
    /// The date exists in the calendar, and its text is kept beside it.
    #[verifier::type_invariant]
    pub closed spec fn well_formed(&self) -> bool {
        &&& is_calendar_date(self.year as int, self.month as int, self.day as int)
        &&& self.text@ == date_text(self.year as int, self.month as int, self.day as int)
    }

    /// The date of the given year, month (1 to 12) and day of the month,
    /// if there is such a day.
    pub fn from_calendar_date(year: i32, month: u8, day: u8) -> (r: Option<Date>)
        ensures
            r is Some <==> is_calendar_date(year as int, month as int, day as int),
            r matches Some(date) ==> date@ == (CalendarDate {
                year: year as int,
                month: month as int,
                day: day as int,
            }),
    {
        match calendar_date_text(year, month, day) {
            Some(text) => Some(Date { year, month, day, text }),
            None => None,
        }
    }

    /// The year.
    pub fn year(&self) -> (r: i32)
        ensures
            r == self@.year,
            is_calendar_date(self@.year, self@.month, self@.day),
    {
        proof {
            use_type_invariant(self);
        }
        self.year
    }

    /// The month, from 1 to 12.
    pub fn month(&self) -> (r: u8)
        ensures
            r == self@.month,
            1 <= r <= 12,
    {
        proof {
            use_type_invariant(self);
        }
        self.month
    }

    /// The day of the month.
    pub fn day(&self) -> (r: u8)
        ensures
            r == self@.day,
            1 <= r <= days_in_month(self@.year, self@.month),
    {
        proof {
            use_type_invariant(self);
        }
        self.day
    }

    /// Renders the date in its ISO 8601 calendar form, such as
    /// `2023-06-28`.
    pub fn to_string(&self) -> (s: String)
        ensures
            s@ == date_text(self@.year, self@.month, self@.day),
    {
        proof {
            use_type_invariant(self);
        }
        self.text.clone()
    }
}

} // verus!
