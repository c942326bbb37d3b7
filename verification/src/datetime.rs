//! The calendar value model: an optional (year, month, day) triple plus an
//! optional (hour, minute, second) triple, at least one of them present.
//! Construction validates every field against the proleptic Gregorian
//! calendar, over the same year range the engine's own calendar type
//! accepts; nothing is clamped or truncated.

use vstd::prelude::*;

verus! {

/// A valid calendar date: year within the supported range, month within
/// the year, day within the month (leap years accounted for).
#[derive(Clone, Copy, PartialEq, Eq, Structural, Debug)]
pub struct CalendarDate {
    pub year: i32,
    pub month: u8,
    pub day: u8,
}

/// A valid time of day.
#[derive(Clone, Copy, PartialEq, Eq, Structural, Debug)]
pub struct ClockTime {
    pub hour: u8,
    pub minute: u8,
    pub second: u8,
}

/// A calendar value: a date, a time of day, or both.
#[derive(Clone, Copy, PartialEq, Eq, Structural, Debug)]
pub struct Datetime {
    pub date: Option<CalendarDate>,
    pub time: Option<ClockTime>,
}

/// Whether `y` is a leap year in the proleptic Gregorian calendar.
pub open spec fn spec_is_leap_year(y: int) -> bool {
    y % 4 == 0 && (y % 100 != 0 || y % 400 == 0)
}

/// The number of days in month `m` of year `y`.
pub open spec fn spec_days_in_month(y: int, m: int) -> int {
    if m == 2 {
        if spec_is_leap_year(y) {
            29
        } else {
            28
        }
    } else if m == 4 || m == 6 || m == 9 || m == 11 {
        30
    } else {
        31
    }
}

/// The years the calendar supports, matching the engine's calendar range.
pub open spec fn spec_year_in_range(y: int) -> bool {
    -9999 <= y <= 9999
}

/// Whether (year, month, day) denotes a real calendar date.
pub open spec fn spec_valid_date(y: int, m: int, d: int) -> bool {
    &&& spec_year_in_range(y)
    &&& 1 <= m <= 12
    &&& 1 <= d <= spec_days_in_month(y, m)
}

/// Whether (hour, minute, second) denotes a valid time of day.
pub open spec fn spec_valid_time(h: int, mi: int, s: int) -> bool {
    0 <= h <= 23 && 0 <= mi <= 59 && 0 <= s <= 59
}

impl CalendarDate {
    pub open spec fn wf(&self) -> bool {
        spec_valid_date(self.year as int, self.month as int, self.day as int)
    }
}

impl ClockTime {
    pub open spec fn wf(&self) -> bool {
        spec_valid_time(self.hour as int, self.minute as int, self.second as int)
    }
}

impl Datetime {
    /// At least one triple present, and every present field valid.
    pub open spec fn wf(&self) -> bool {
        &&& (self.date is Some || self.time is Some)
        &&& (self.date matches Some(d) ==> d.wf())
        &&& (self.time matches Some(t) ==> t.wf())
    }

    /// A date-only calendar value, or nothing when a field is out of range.
    pub fn from_ymd(year: i64, month: i64, day: i64) -> (r: Option<Datetime>)
        ensures
            r is Some <==> spec_valid_date(year as int, month as int, day as int),
            r matches Some(dt) ==> ({
                &&& dt.wf()
                &&& dt.date == Some(
                    CalendarDate { year: year as i32, month: month as u8, day: day as u8 },
                )
                &&& dt.time is None
            }),
    {
        if year < -9999 || year > 9999 || month < 1 || month > 12 {
            return None;
        }
        let max_day = days_in_month(year, month);
        if day < 1 || day > max_day {
            return None;
        }
        Some(
            Datetime {
                date: Some(
                    CalendarDate { year: year as i32, month: month as u8, day: day as u8 },
                ),
                time: None,
            },
        )
    }

    /// A full calendar value, or nothing when a field is out of range.
    pub fn from_ymd_hms(
        year: i64,
        month: i64,
        day: i64,
        hour: i64,
        minute: i64,
        second: i64,
    ) -> (r: Option<Datetime>)
        ensures
            r is Some <==> (spec_valid_date(year as int, month as int, day as int)
                && spec_valid_time(hour as int, minute as int, second as int)),
            r matches Some(dt) ==> ({
                &&& dt.wf()
                &&& dt.date == Some(
                    CalendarDate { year: year as i32, month: month as u8, day: day as u8 },
                )
                &&& dt.time == Some(
                    ClockTime { hour: hour as u8, minute: minute as u8, second: second as u8 },
                )
            }),
    {
        let date = Datetime::from_ymd(year, month, day);
        match date {
            None => None,
            Some(d) => {
                if hour < 0 || hour > 23 || minute < 0 || minute > 59 || second < 0 || second > 59 {
                    None
                } else {
                    Some(
                        Datetime {
                            date: d.date,
                            time: Some(
                                ClockTime {
                                    hour: hour as u8,
                                    minute: minute as u8,
                                    second: second as u8,
                                },
                            ),
                        },
                    )
                }
            },
        }
    }

    /// A time-only calendar value, or nothing when a field is out of range.
    pub fn from_hms(hour: i64, minute: i64, second: i64) -> (r: Option<Datetime>)
        ensures
            r is Some <==> spec_valid_time(hour as int, minute as int, second as int),
            r matches Some(dt) ==> ({
                &&& dt.wf()
                &&& dt.date is None
                &&& dt.time == Some(
                    ClockTime { hour: hour as u8, minute: minute as u8, second: second as u8 },
                )
            }),
    {
        if hour < 0 || hour > 23 || minute < 0 || minute > 59 || second < 0 || second > 59 {
            None
        } else {
            Some(
                Datetime {
                    date: None,
                    time: Some(
                        ClockTime {
                            hour: hour as u8,
                            minute: minute as u8,
                            second: second as u8,
                        },
                    ),
                },
            )
        }
    }
}

/// The number of days in month `m` of year `y`.
pub fn days_in_month(y: i64, m: i64) -> (r: i64)
    requires
        1 <= m <= 12,
    ensures
        r == spec_days_in_month(y as int, m as int),
{
    if m == 2 {
        if (y % 4 == 0) && (y % 100 != 0 || y % 400 == 0) {
            29
        } else {
            28
        }
    } else if m == 4 || m == 6 || m == 9 || m == 11 {
        30
    } else {
        31
    }
}

} // verus!
