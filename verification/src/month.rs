//! Months, calendar dates, and the year range the date backend supports.

use vstd::prelude::*;

verus! {

/// Smallest year for which the date backend can represent January 1.
pub const MIN_YEAR: i32 = -262143;

/// Largest year for which the date backend can represent January 1.
pub const MAX_YEAR: i32 = 262142;

/// A calendar month, January through December.
#[derive(Clone, Copy, Debug, PartialEq, Eq, Structural)]
pub enum Month {
    January,
    February,
    March,
    April,
    May,
    June,
    July,
    August,
    September,
    October,
    November,
    December,
}

/// Years whose first day the date backend can represent; navigation never
/// leaves this range.
pub open spec fn year_in_range(year: int) -> bool {
    MIN_YEAR <= year <= MAX_YEAR
}

/// Relies on chrono::NaiveDate::from_ymd_opt: with month 1 and day 1 it
/// returns Some exactly when `year` lies between chrono's MIN_YEAR and
/// MAX_YEAR, which are -262143 and 262142.
#[verifier::external_body]
pub(crate) fn first_of_year_representable(year: i32) -> (r: bool)
    ensures
        r == year_in_range(year as int),
{
    chrono::NaiveDate::from_ymd_opt(year, 1, 1).is_some()
}

impl Month {
    /// The month that follows this one, wrapping December to January.
    pub open spec fn succ_spec(self) -> Month {
        match self {
            Month::January => Month::February,
            Month::February => Month::March,
            Month::March => Month::April,
            Month::April => Month::May,
            Month::May => Month::June,
            Month::June => Month::July,
            Month::July => Month::August,
            Month::August => Month::September,
            Month::September => Month::October,
            Month::October => Month::November,
            Month::November => Month::December,
            Month::December => Month::January,
        }
    }

    /// The month that precedes this one, wrapping January to December.
    pub open spec fn pred_spec(self) -> Month {
        match self {
            Month::January => Month::December,
            Month::February => Month::January,
            Month::March => Month::February,
            Month::April => Month::March,
            Month::May => Month::April,
            Month::June => Month::May,
            Month::July => Month::June,
            Month::August => Month::July,
            Month::September => Month::August,
            Month::October => Month::September,
            Month::November => Month::October,
            Month::December => Month::November,
        }
    }

    /// One-based position of the month within the year.
    pub open spec fn number_spec(self) -> int {
        match self {
            Month::January => 1,
            Month::February => 2,
            Month::March => 3,
            Month::April => 4,
            Month::May => 5,
            Month::June => 6,
            Month::July => 7,
            Month::August => 8,
            Month::September => 9,
            Month::October => 10,
            Month::November => 11,
            Month::December => 12,
        }
    }

    pub fn succ(self) -> (r: Month)
        ensures
            r == self.succ_spec(),
    {
        match self {
            Month::January => Month::February,
            Month::February => Month::March,
            Month::March => Month::April,
            Month::April => Month::May,
            Month::May => Month::June,
            Month::June => Month::July,
            Month::July => Month::August,
            Month::August => Month::September,
            Month::September => Month::October,
            Month::October => Month::November,
            Month::November => Month::December,
            Month::December => Month::January,
        }
    }

    pub fn pred(self) -> (r: Month)
        ensures
            r == self.pred_spec(),
    {
        match self {
            Month::January => Month::December,
            Month::February => Month::January,
            Month::March => Month::February,
            Month::April => Month::March,
            Month::May => Month::April,
            Month::June => Month::May,
            Month::July => Month::June,
            Month::August => Month::July,
            Month::September => Month::August,
            Month::October => Month::September,
            Month::November => Month::October,
            Month::December => Month::November,
        }
    }

    /// One-based month number, 1 for January through 12 for December.
    pub fn number(self) -> (r: u8)
        ensures
            r as int == self.number_spec(),
    {
        match self {
            Month::January => 1,
            Month::February => 2,
            Month::March => 3,
            Month::April => 4,
            Month::May => 5,
            Month::June => 6,
            Month::July => 7,
            Month::August => 8,
            Month::September => 9,
            Month::October => 10,
            Month::November => 11,
            Month::December => 12,
        }
    }

    /// The month with the given one-based number, or None outside 1..=12.
    pub fn from_number(n: u8) -> (r: Option<Month>)
        ensures
            r == Month::from_number_spec(n as int),
    {
        match n {
            1 => Some(Month::January),
            2 => Some(Month::February),
            3 => Some(Month::March),
            4 => Some(Month::April),
            5 => Some(Month::May),
            6 => Some(Month::June),
            7 => Some(Month::July),
            8 => Some(Month::August),
            9 => Some(Month::September),
            10 => Some(Month::October),
            11 => Some(Month::November),
            12 => Some(Month::December),
            _ => None,
        }
    }

    pub open spec fn from_number_spec(n: int) -> Option<Month> {
        if n == 1 {
            Some(Month::January)
        } else if n == 2 {
            Some(Month::February)
        } else if n == 3 {
            Some(Month::March)
        } else if n == 4 {
            Some(Month::April)
        } else if n == 5 {
            Some(Month::May)
        } else if n == 6 {
            Some(Month::June)
        } else if n == 7 {
            Some(Month::July)
        } else if n == 8 {
            Some(Month::August)
        } else if n == 9 {
            Some(Month::September)
        } else if n == 10 {
            Some(Month::October)
        } else if n == 11 {
            Some(Month::November)
        } else if n == 12 {
            Some(Month::December)
        } else {
            None
        }
    }
}

/// Proleptic Gregorian leap-year rule, as the date backend applies it.
pub open spec fn is_leap_year(year: int) -> bool {
    year % 4 == 0 && (year % 100 != 0 || year % 400 == 0)
}

/// Number of days in the given month of the given year.
pub open spec fn days_in_month(year: int, month: Month) -> int {
    match month {
        Month::February => if is_leap_year(year) {
            29
        } else {
            28
        },
        Month::April => 30,
        Month::June => 30,
        Month::September => 30,
        Month::November => 30,
        _ => 31,
    }
}

/// A concrete calendar date, used as the sampled "today" value.
#[derive(Clone, Copy, Debug, PartialEq, Eq, Structural)]
pub struct Date {
    pub year: i32,
    pub month: Month,
    pub day: u8,
}

impl Date {
    /// The date denotes a real day that the date backend can represent.
    pub open spec fn wf(self) -> bool {
        &&& year_in_range(self.year as int)
        &&& 1 <= self.day as int <= days_in_month(self.year as int, self.month)
    }

    pub fn new(year: i32, month: Month, day: u8) -> (r: Date)
        ensures
            r == (Date { year, month, day }),
    {
        Date { year, month, day }
    }
}

} // verus!
