use chrono::{Datelike, Timelike};
use vstd::prelude::*;

verus! {

/// A UTC timestamp as calendar fields, whole seconds only.
pub struct CivilTime {
    pub year: int,
    pub month: int,
    pub day: int,
    pub hour: int,
    pub minute: int,
    pub second: int,
}

/// Leap years of the proleptic Gregorian calendar (year 0 is 1 BCE, a leap year).
pub open spec fn is_leap_year(year: int) -> bool {
    year % 4 == 0 && (year % 100 != 0 || year % 400 == 0)
}

pub open spec fn days_in_month(year: int, month: int) -> int {
    if month == 2 {
        if is_leap_year(year) { 29 } else { 28 }
    } else if month == 4 || month == 6 || month == 9 || month == 11 {
        30
    } else {
        31
    }
}

/// The day `day` of month `month` of `year` exists.
pub open spec fn is_calendar_date(year: int, month: int, day: int) -> bool {
    1 <= month <= 12 && 1 <= day <= days_in_month(year, month)
}

/// A time of day without leap seconds.
pub open spec fn is_time_of_day(hour: int, minute: int, second: int) -> bool {
    0 <= hour < 24 && 0 <= minute < 60 && 0 <= second < 60
}

impl CivilTime {
    pub open spec fn is_valid(self) -> bool {
        is_calendar_date(self.year, self.month, self.day)
            && is_time_of_day(self.hour, self.minute, self.second)
    }
}

#[verifier::external_type_specification]
#[verifier::external_body]
pub struct ExNaiveDate(chrono::NaiveDate);

#[verifier::external_type_specification]
#[verifier::external_body]
pub struct ExNaiveTime(chrono::NaiveTime);

/// Relies on chrono's `NaiveDate::from_ymd_opt`: for a year within chrono's
/// range it returns `None` exactly when month or day is invalid or the
/// calendar day does not exist.
pub assume_specification[ chrono::NaiveDate::from_ymd_opt ](
    year: i32,
    month: u32,
    day: u32,
) -> (r: Option<chrono::NaiveDate>)
    ensures
        0 <= year <= 9999 ==> (r is Some <==> is_calendar_date(year as int, month as int, day as int)),
;

/// Relies on chrono's `NaiveTime::from_hms_opt`: `None` exactly on an hour
/// over 23, a minute over 59 or a second over 59.
pub assume_specification[ chrono::NaiveTime::from_hms_opt ](
    hour: u32,
    min: u32,
    sec: u32,
) -> (r: Option<chrono::NaiveTime>)
    ensures
        r is Some <==> is_time_of_day(hour as int, min as int, sec as int),
;

/// Relies on chrono's `Utc::now`, read through `Datelike` and `Timelike`:
/// whatever the clock says, the fields name an existing day and a time of
/// day whose second is below 60 (chrono keeps a leap second in the fraction).
#[verifier::external_body]
fn utc_now_fields() -> (r: (i32, u32, u32, u32, u32, u32))
    ensures
        is_calendar_date(r.0 as int, r.1 as int, r.2 as int),
        is_time_of_day(r.3 as int, r.4 as int, r.5 as int),
{
    let now = chrono::Utc::now();
    (now.year(), now.month(), now.day(), now.hour(), now.minute(), now.second())
}

/// A valid UTC timestamp with whole-second precision.
#[derive(Clone, Copy, Debug, PartialEq, Eq, Structural)]
pub struct UtcDateTime {
    year: i32,
    month: u32,
    day: u32,
    hour: u32,
    minute: u32,
    second: u32,
}

impl View for UtcDateTime {
    type V = CivilTime;

    closed spec fn view(&self) -> CivilTime {
        CivilTime {
            year: self.year as int,
            month: self.month as int,
            day: self.day as int,
            hour: self.hour as int,
            minute: self.minute as int,
            second: self.second as int,
        }
    }
}

/// Whether chrono accepts the calendar day and the time of day.
fn checked_fields(year: i32, month: u32, day: u32, hour: u32, minute: u32, second: u32) -> (r:
    bool)
    requires
        0 <= year <= 9999,
    ensures
        r == (is_calendar_date(year as int, month as int, day as int) && is_time_of_day(
            hour as int,
            minute as int,
            second as int,
        )),
{
    chrono::NaiveDate::from_ymd_opt(year, month, day).is_some()
        && chrono::NaiveTime::from_hms_opt(hour, minute, second).is_some()
}

impl UtcDateTime {
    #[verifier::type_invariant]
    pub(crate) open spec fn inv(&self) -> bool {
        self@.is_valid()
    }

    /// The timestamp with the given fields, or `None` where they name no
    /// existing day or time of day. Years from 0 to 9999 are accepted.
    pub fn new(year: i32, month: u32, day: u32, hour: u32, minute: u32, second: u32) -> (r: Option<
        UtcDateTime,
    >)
        ensures
            r is Some <==> (0 <= year <= 9999 && (CivilTime {
                year: year as int,
                month: month as int,
                day: day as int,
                hour: hour as int,
                minute: minute as int,
                second: second as int,
            }).is_valid()),
            r matches Some(t) ==> t@ == (CivilTime {
                year: year as int,
                month: month as int,
                day: day as int,
                hour: hour as int,
                minute: minute as int,
                second: second as int,
            }),
    {
        if year < 0 || year > 9999 {
            return None;
        }
        if !checked_fields(year, month, day, hour, minute, second) {
            return None;
        }
        Some(UtcDateTime { year, month, day, hour, minute, second })
    }

    /// The current time of the system clock, to the second.
    pub fn now() -> (r: UtcDateTime)
        ensures
            r@.is_valid(),
    {
        let (year, month, day, hour, minute, second) = utc_now_fields();
        UtcDateTime { year, month, day, hour, minute, second }
    }

    pub fn year(&self) -> (r: i32)
        ensures
            r == self@.year,
    {
        self.year
    }

    pub fn month(&self) -> (r: u32)
        ensures
            r == self@.month,
    {
        self.month
    }

    pub fn day(&self) -> (r: u32)
        ensures
            r == self@.day,
    {
        self.day
    }

    pub fn hour(&self) -> (r: u32)
        ensures
            r == self@.hour,
    {
        self.hour
    }

    pub fn minute(&self) -> (r: u32)
        ensures
            r == self@.minute,
    {
        self.minute
    }

    pub fn second(&self) -> (r: u32)
        ensures
            r == self@.second,
    {
        self.second
    }
}

} // verus!
