//! Calendar timestamps: a date of the proleptic Gregorian calendar together
//! with a time of day, to the second.

use chrono::NaiveDate;
use chrono::NaiveDateTime;
use vstd::prelude::*;

verus! {

/// chrono's `NaiveDate`. Nothing is known of what a value holds.
#[verifier::external_type_specification]
#[verifier::external_body]
pub struct ExNaiveDate(chrono::NaiveDate);

/// chrono's `NaiveDateTime`. Nothing is known of what a value holds.
#[verifier::external_type_specification]
#[verifier::external_body]
pub struct ExNaiveDateTime(chrono::NaiveDateTime);

/// The earliest year that a date can have: the first that chrono's
/// `NaiveDate` holds.
pub const MIN_YEAR: i32 = -262_143;

/// The latest year that a date can have: the last that chrono's
/// `NaiveDate` holds.
pub const MAX_YEAR: i32 = 262_142;

/// Whether `year` has a 29th of February.
pub open spec fn is_leap_year(year: int) -> bool {
    year % 4 == 0 && (year % 100 != 0 || year % 400 == 0)
}

/// The number of days of `month` in `year`; 0 where `month` is no month.
pub open spec fn days_in_month(year: int, month: int) -> int {
    if month == 2 {
        if is_leap_year(year) {
            29
        } else {
            28
        }
    } else if month == 4 || month == 6 || month == 9 || month == 11 {
        30
    } else if 1 <= month <= 12 {
        31
    } else {
        0
    }
}

/// Whether the calendar has the day `day` of `month` in `year`.
pub open spec fn is_calendar_date(year: int, month: int, day: int) -> bool {
    1 <= month <= 12 && 1 <= day <= days_in_month(year, month)
}

/// Whether a clock can show `hour:minute:second`.
pub open spec fn is_time_of_day(hour: int, minute: int, second: int) -> bool {
    0 <= hour < 24 && 0 <= minute < 60 && 0 <= second < 60
}

/// The six fields of a timestamp, as mathematical integers.
pub struct CalendarFields {
    pub year: int,
    pub month: int,
    pub day: int,
    pub hour: int,
    pub minute: int,
    pub second: int,
}

impl CalendarFields {
    /// Whether the fields name a moment that exists: a day of the calendar,
    /// in a year that a date can have, and a time of day.
    pub open spec fn is_valid(self) -> bool {
        &&& MIN_YEAR <= self.year <= MAX_YEAR
        &&& is_calendar_date(self.year, self.month, self.day)
        &&& is_time_of_day(self.hour, self.minute, self.second)
    }
}

/// `NaiveDate::from_ymd_opt` of chrono. It is trusted to return a date exactly
/// when the year lies between [`MIN_YEAR`] and [`MAX_YEAR`] and the calendar
/// has that day of that month in that year.
#[verifier::external_body]
fn date_from_ymd(year: i32, month: u32, day: u32) -> (date: Option<NaiveDate>)
    ensures
        date.is_some() <==> (MIN_YEAR <= year <= MAX_YEAR && is_calendar_date(
            year as int,
            month as int,
            day as int,
        )),
{
    NaiveDate::from_ymd_opt(year, month, day)
}

/// `NaiveDate::and_hms_opt` of chrono. It is trusted to return a date and time
/// exactly when the hour is below 24 and minute and second are below 60.
#[verifier::external_body]
fn date_and_hms(date: &NaiveDate, hour: u32, minute: u32, second: u32) -> (moment: Option<
    NaiveDateTime,
>)
    ensures
        moment.is_some() <==> is_time_of_day(hour as int, minute as int, second as int),
{
    date.and_hms_opt(hour, minute, second)
}

/// A moment of the calendar: year, month, day, and a time of day on the
/// 24-hour clock. Every value of this type names a moment that exists.
#[derive(Clone, Copy, Debug, PartialEq, Eq)]
pub struct CalendarTimestamp {
    year: i32,
    month: u8,
    day: u8,
    hour: u8,
    minute: u8,
    second: u8,
}

impl View for CalendarTimestamp {
    type V = CalendarFields;

    closed spec fn view(&self) -> CalendarFields {
        CalendarFields {
            year: self.year as int,
            month: self.month as int,
            day: self.day as int,
            hour: self.hour as int,
            minute: self.minute as int,
            second: self.second as int,
        }
    }
}

impl CalendarTimestamp {
    #[verifier::type_invariant]
    spec fn well_formed(self) -> bool {
        self@.is_valid()
    }

    /// The timestamp with the given fields, or `None` where they name no
    /// moment that exists (the 30th of February, hour 24).
    pub fn new(year: i32, month: u8, day: u8, hour: u8, minute: u8, second: u8) -> (made: Option<
        CalendarTimestamp,
    >)
        ensures
            made.is_some() <==> (CalendarFields {
                year: year as int,
                month: month as int,
                day: day as int,
                hour: hour as int,
                minute: minute as int,
                second: second as int,
            }).is_valid(),
            made matches Some(t) ==> t@ == (CalendarFields {
                year: year as int,
                month: month as int,
                day: day as int,
                hour: hour as int,
                minute: minute as int,
                second: second as int,
            }),
    {
        match date_from_ymd(year, month as u32, day as u32) {
            None => None,
            Some(date) => match date_and_hms(&date, hour as u32, minute as u32, second as u32) {
                None => None,
                Some(_) => Some(CalendarTimestamp { year, month, day, hour, minute, second }),
            },
        }
    }

    /// The year, counted from the start of the common era.
    pub fn year(&self) -> (year: i32)
        ensures
            year == self@.year,
            self@.is_valid(),
    {
        proof {
            use_type_invariant(self);
        }
        self.year
    }

    /// The month, from 1 for January to 12 for December.
    pub fn month(&self) -> (month: u8)
        ensures
            month == self@.month,
            self@.is_valid(),
    {
        proof {
            use_type_invariant(self);
        }
        self.month
    }

    /// The day of the month, from 1.
    pub fn day(&self) -> (day: u8)
        ensures
            day == self@.day,
            self@.is_valid(),
    {
        proof {
            use_type_invariant(self);
        }
        self.day
    }

    /// The hour on the 24-hour clock, from 0 to 23.
    pub fn hour(&self) -> (hour: u8)
        ensures
            hour == self@.hour,
            self@.is_valid(),
    {
        proof {
            use_type_invariant(self);
        }
        self.hour
    }

    /// The minute of the hour, from 0 to 59.
    pub fn minute(&self) -> (minute: u8)
        ensures
            minute == self@.minute,
            self@.is_valid(),
    {
        proof {
            use_type_invariant(self);
        }
        self.minute
    }

    /// The second of the minute, from 0 to 59.
    pub fn second(&self) -> (second: u8)
        ensures
            second == self@.second,
            self@.is_valid(),
    {
        proof {
            use_type_invariant(self);
        }
        self.second
    }
}

} // verus!
