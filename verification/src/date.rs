//! Calendar dates: the days of the proleptic Gregorian calendar, their order,
//! and the day that follows each.

use vstd::prelude::*;

verus! {

/// The earliest year that a [`Date`] can lie in.
pub const MIN_YEAR: i32 = -262143;

/// The latest year that a [`Date`] can lie in.
pub const MAX_YEAR: i32 = 262142;

/// Whether `year` has a 29th of February.
pub open spec fn is_leap_year(year: int) -> bool {
    year % 4 == 0 && (year % 100 != 0 || year % 400 == 0)
}

/// The number of days of `month` (1 to 12) in `year`.
pub open spec fn days_in_month(year: int, month: int) -> int {
    if month == 2 {
        if is_leap_year(year) {
            29
        } else {
            28
        }
    } else if month == 4 || month == 6 || month == 9 || month == 11 {
        30
    } else {
        31
    }
}

/// A calendar date as a mathematical value: what a [`Date`] stands for.
pub struct Ymd {
    pub year: int,
    pub month: int,
    pub day: int,
}

impl Ymd {
    /// The date exists in the calendar and its year is one a [`Date`] can hold.
    pub open spec fn is_valid(self) -> bool {
        &&& MIN_YEAR <= self.year <= MAX_YEAR
        &&& 1 <= self.month <= 12
        &&& 1 <= self.day <= days_in_month(self.year, self.month)
    }

    /// `self` is an earlier day than `other`.
    pub open spec fn precedes(self, other: Ymd) -> bool {
        ||| self.year < other.year
        ||| self.year == other.year && self.month < other.month
        ||| self.year == other.year && self.month == other.month && self.day < other.day
    }

    /// `self` is the same day as `other` or an earlier one.
    pub open spec fn at_most(self, other: Ymd) -> bool {
        self == other || self.precedes(other)
    }

    /// `self` is the last day that a [`Date`] can hold.
    pub open spec fn is_last(self) -> bool {
        self.year == MAX_YEAR && self.month == 12 && self.day == 31
    }

    /// The day after `self`.
    pub open spec fn successor(self) -> Ymd {
        if self.day < days_in_month(self.year, self.month) {
            Ymd { year: self.year, month: self.month, day: self.day + 1 }
        } else if self.month < 12 {
            Ymd { year: self.year, month: self.month + 1, day: 1 }
        } else {
            Ymd { year: self.year + 1, month: 1, day: 1 }
        }
    }
}

/// The day after a valid date, unless it is the last one, is a valid date,
/// and it is a later day.
pub proof fn lemma_successor_is_later(d: Ymd)
    requires
        d.is_valid(),
        !d.is_last(),
    ensures
        d.successor().is_valid(),
        d.precedes(d.successor()),
{
}

/// No day lies between a date and its successor: every valid date after `d`
/// is the successor of `d` or comes after it.
pub proof fn lemma_successor_is_adjacent(d: Ymd, later: Ymd)
    requires
        d.is_valid(),
        later.is_valid(),
        d.precedes(later),
    ensures
        d.successor().at_most(later),
        !d.is_last(),
{
}

/// A calendar date between 1 January of [`MIN_YEAR`] and 31 December of
/// [`MAX_YEAR`]. Every value is a day that exists.
#[derive(Clone, Copy, Debug, PartialEq, Eq, Structural)]
pub struct Date {
    pub(crate) year: i32,
    pub(crate) month: u32,
    pub(crate) day: u32,
}

impl View for Date {
    type V = Ymd;

    closed spec fn view(&self) -> Ymd {
        Ymd { year: self.year as int, month: self.month as int, day: self.day as int }
    }
}

impl Date {
    /// Every `Date` stands for a day that exists.
    #[verifier::type_invariant]
    pub open spec fn well_formed(self) -> bool {
        self@.is_valid()
    }

    /// The date of the given year, month (1 to 12) and day of the month, if
    /// there is such a day.
    pub fn new(year: i32, month: u32, day: u32) -> (date: Option<Date>)
        ensures
            ({
                let asked = Ymd { year: year as int, month: month as int, day: day as int };
                match date {
                    Some(d) => d@ == asked && asked.is_valid(),
                    None => !asked.is_valid(),
                }
            }),
    {
        if year < MIN_YEAR || year > MAX_YEAR || month < 1 || month > 12 || day < 1 {
            return None;
        }
        if day > month_length(year, month) {
            return None;
        }
        Some(Date { year, month, day })
    }

    /// The year.
    pub fn year(&self) -> (year: i32)
        ensures
            year == self@.year,
            self@.is_valid(),
    {
        proof {
            use_type_invariant(self);
        }
        self.year
    }

    /// The month, 1 to 12.
    pub fn month(&self) -> (month: u32)
        ensures
            month == self@.month,
            self@.is_valid(),
    {
        proof {
            use_type_invariant(self);
        }
        self.month
    }

    /// The day of the month, 1 to 31.
    pub fn day(&self) -> (day: u32)
        ensures
            day == self@.day,
            self@.is_valid(),
    {
        proof {
            use_type_invariant(self);
        }
        self.day
    }

    /// Whether `self` is an earlier day than `other`.
    pub fn is_before(&self, other: &Date) -> (earlier: bool)
        ensures
            earlier == self@.precedes(other@),
    {
        self.year < other.year || (self.year == other.year && (self.month < other.month || (
        self.month == other.month && self.day < other.day)))
    }

    /// Whether `self` and `other` are the same day.
    pub fn is_same_day(&self, other: &Date) -> (same: bool)
        ensures
            same == (self@ == other@),
    {
        self.year == other.year && self.month == other.month && self.day == other.day
    }

    /// The day after `self`, or `None` where `self` is the last day that a
    /// `Date` can hold.
    pub fn next_day(&self) -> (next: Option<Date>)
        ensures
            match next {
                Some(d) => !self@.is_last() && d@ == self@.successor(),
                None => self@.is_last(),
            },
    {
        proof {
            use_type_invariant(self);
        }
        if self.day < month_length(self.year, self.month) {
            Some(Date { year: self.year, month: self.month, day: self.day + 1 })
        } else if self.month < 12 {
            Some(Date { year: self.year, month: self.month + 1, day: 1 })
        } else if self.year < MAX_YEAR {
            Some(Date { year: self.year + 1, month: 1, day: 1 })
        } else {
            None
        }
    }
}

/// The number of days of `month` in `year`.
fn month_length(year: i32, month: u32) -> (days: u32)
    requires
        MIN_YEAR <= year <= MAX_YEAR,
        1 <= month <= 12,
    ensures
        days == days_in_month(year as int, month as int),
{
    if month == 2 {
        // 262400 is a multiple of 400, so the shifted year is positive and
        // has the same remainders.
        let shifted: i32 = year + 262400;
        if shifted % 4 == 0 && (shifted % 100 != 0 || shifted % 400 == 0) {
            29
        } else {
            28
        }
    } else if month == 4 || month == 6 || month == 9 || month == 11 {
        30
    } else {
        31
    }
}

} // verus!
