use vstd::prelude::*;

verus! {

/// A calendar date-time whose time zone has already been normalized to UTC,
/// decomposed into plain calendar fields. The report format never carries
/// sub-second precision, so seconds are whole.
#[derive(Clone, Copy, PartialEq, Eq, Structural, Debug)]
pub struct UtcDateTime {
    pub year: i32,
    pub month: u8,
    pub day: u8,
    pub hour: u8,
    pub minute: u8,
    pub second: u8,
}

pub open spec fn spec_is_leap_year(year: int) -> bool {
    year % 4 == 0 && (year % 100 != 0 || year % 400 == 0)
}

pub open spec fn spec_days_in_month(year: int, month: int) -> int {
    if month == 2 {
        if spec_is_leap_year(year) {
            29
        } else {
            28
        }
    } else if month == 4 || month == 6 || month == 9 || month == 11 {
        30
    } else {
        31
    }
}

/// The date-times the spreadsheet format can represent: a calendar day from
/// 1900-01-01 through 9999-12-31 together with a valid time of day.
pub open spec fn spec_valid_date_time(d: UtcDateTime) -> bool {
    &&& 1900 <= d.year <= 9999
    &&& 1 <= d.month <= 12
    &&& 1 <= d.day <= spec_days_in_month(d.year as int, d.month as int)
    &&& d.hour < 24
    &&& d.minute < 60
    &&& d.second < 60
}

pub fn is_leap_year(year: i32) -> (r: bool)
    requires
        year >= 0,
    ensures
        r == spec_is_leap_year(year as int),
{
    year % 4 == 0 && (year % 100 != 0 || year % 400 == 0)
}

pub fn days_in_month(year: i32, month: u8) -> (r: u8)
    requires
        year >= 0,
        1 <= month <= 12,
    ensures
        r as int == spec_days_in_month(year as int, month as int),
{
    if month == 2 {
        if is_leap_year(year) {
            29
        } else {
            28
        }
    } else if month == 4 || month == 6 || month == 9 || month == 11 {
        30
    } else {
        31
    }
}

impl UtcDateTime {
    /// Decides whether this date-time lies in the representable range.
    pub fn is_representable(&self) -> (r: bool)
        ensures
            r == spec_valid_date_time(*self),
    {
        if self.year < 1900 || self.year > 9999 {
            return false;
        }
        if self.month < 1 || self.month > 12 {
            return false;
        }
        if self.day < 1 || self.day > days_in_month(self.year, self.month) {
            return false;
        }
        self.hour < 24 && self.minute < 60 && self.second < 60
    }
}

} // verus!
