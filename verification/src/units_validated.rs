//! Validated calendar units: smart constructors are the only way to obtain a
//! year, month, day or full date, so every value of these types is in range
//! by construction.

use vstd::prelude::*;

use crate::calendar;
use crate::calendar::YEAR_UPPER_BOUND;
use crate::errors::{AppError, AppResult};

verus! {

/// A year between 0 and `YEAR_UPPER_BOUND`.
#[derive(Debug, Clone, Copy, PartialEq, Eq, Structural)]
pub struct ValidatedYear {
    value: u32,
}

impl ValidatedYear {
    pub closed spec fn val(self) -> u32 {
        self.value
    }

    pub open spec fn wf(self) -> bool {
        self.val() <= YEAR_UPPER_BOUND
    }

    /// The single fallible entry point: rejects years above the supported
    /// bound and accepts everything else unchanged.
    pub fn try_from(value: u32) -> (r: AppResult<Self>)
        ensures
            r is Ok <==> value <= YEAR_UPPER_BOUND,
            r matches Ok(y) ==> y.val() == value && y.wf(),
            r matches Err(e) ==> e == AppError::YearOutOfBounds,
    {
        if value > YEAR_UPPER_BOUND {
            Err(AppError::YearOutOfBounds)
        } else {
            Ok(Self { value })
        }
    }

    pub fn get(self) -> (r: u32)
        ensures
            r == self.val(),
    {
        self.value
    }
}

/// A month between 1 and 12.
#[derive(Debug, Clone, Copy, PartialEq, Eq, Structural)]
pub struct ValidatedMonth {
    value: u32,
}

impl ValidatedMonth {
    pub closed spec fn val(self) -> u32 {
        self.value
    }

    pub open spec fn wf(self) -> bool {
        1 <= self.val() <= 12
    }

    /// Rejects months outside 1..=12 and accepts everything else unchanged.
    pub fn try_from(value: u32) -> (r: AppResult<Self>)
        ensures
            r is Ok <==> 1 <= value <= 12,
            r matches Ok(m) ==> m.val() == value && m.wf(),
            r matches Err(e) ==> e == AppError::MonthOutOfBounds,
    {
        if value < 1 || value > 12 {
            Err(AppError::MonthOutOfBounds)
        } else {
            Ok(Self { value })
        }
    }

    pub fn get(self) -> (r: u32)
        ensures
            r == self.val(),
    {
        self.value
    }
}

/// A day of month between 1 and 31; whether the day exists in a given month
/// is only decided when the units are combined into a `ValidatedDate`.
#[derive(Debug, Clone, Copy, PartialEq, Eq, Structural)]
pub struct ValidatedDay {
    value: u32,
}

impl ValidatedDay {
    pub closed spec fn val(self) -> u32 {
        self.value
    }

    pub open spec fn wf(self) -> bool {
        1 <= self.val() <= 31
    }

    /// Rejects days outside 1..=31 and accepts everything else unchanged.
    pub fn try_from(value: u32) -> (r: AppResult<Self>)
        ensures
            r is Ok <==> 1 <= value <= 31,
            r matches Ok(d) ==> d.val() == value && d.wf(),
            r matches Err(e) ==> e == AppError::DayOutOfBounds,
    {
        if value < 1 || value > 31 {
            Err(AppError::DayOutOfBounds)
        } else {
            Ok(Self { value })
        }
    }

    pub fn get(self) -> (r: u32)
        ensures
            r == self.val(),
    {
        self.value
    }
}

/// A full calendar date; every value denotes a real day of the proleptic
/// Gregorian calendar within the supported year range.
#[derive(Debug, Clone, Copy, PartialEq, Eq, Structural)]
pub struct ValidatedDate {
    year: u32,
    month: u32,
    day: u32,
}

impl ValidatedDate {
    pub closed spec fn y(self) -> u32 {
        self.year
    }

    pub closed spec fn m(self) -> u32 {
        self.month
    }

    pub closed spec fn d(self) -> u32 {
        self.day
    }

    pub open spec fn wf(self) -> bool {
        calendar::is_valid_date(self.y() as int, self.m() as int, self.d() as int)
    }

    /// Combines validated units into a date; this is the single point where
    /// a triple such as February 30th is rejected.
    pub fn new(year: ValidatedYear, month: ValidatedMonth, day: ValidatedDay) -> (r: AppResult<
        Self,
    >)
        requires
            year.wf(),
            month.wf(),
            day.wf(),
        ensures
            r is Ok <==> calendar::is_valid_date(
                year.val() as int,
                month.val() as int,
                day.val() as int,
            ),
            r matches Ok(dt) ==> dt.y() == year.val() && dt.m() == month.val() && dt.d()
                == day.val() && dt.wf(),
            r matches Err(e) ==> e == AppError::InvalidDate,
    {
        let y = year.get();
        let m = month.get();
        let d = day.get();
        if calendar::chrono_ymd_is_valid(y, m, d) {
            Ok(Self { year: y, month: m, day: d })
        } else {
            Err(AppError::InvalidDate)
        }
    }

    /// Builds a date from raw numbers, reporting the first unit that is out
    /// of bounds, or the invalid combination.
    pub fn from_ymd(year: u32, month: u32, day: u32) -> (r: AppResult<Self>)
        ensures
            r is Ok <==> calendar::is_valid_date(year as int, month as int, day as int),
            r matches Ok(dt) ==> dt.y() == year && dt.m() == month && dt.d() == day && dt.wf(),
            r matches Err(e) ==> e == (if year > YEAR_UPPER_BOUND {
                AppError::YearOutOfBounds
            } else if month < 1 || month > 12 {
                AppError::MonthOutOfBounds
            } else if day < 1 || day > 31 {
                AppError::DayOutOfBounds
            } else {
                AppError::InvalidDate
            }),
    {
        let y = ValidatedYear::try_from(year)?;
        let m = ValidatedMonth::try_from(month)?;
        let d = ValidatedDay::try_from(day)?;
        Self::new(y, m, d)
    }

    /// Resolves a day-of-year ordinal, for example day 42 of 2222, to a date.
    pub fn from_ordinal(year: u32, day_of_year: u32) -> (r: AppResult<Self>)
        ensures
            r is Ok <==> year <= YEAR_UPPER_BOUND && 1 <= day_of_year <= calendar::days_in_year(
                year as int,
            ),
            r matches Ok(dt) ==> dt.y() == year && calendar::ordinal_of(
                dt.y() as int,
                dt.m() as int,
                dt.d() as int,
            ) == day_of_year && dt.wf(),
            r matches Err(e) ==> e == (if year > YEAR_UPPER_BOUND {
                AppError::YearOutOfBounds
            } else {
                AppError::InvalidOrdinalDay
            }),
    {
        let y = ValidatedYear::try_from(year)?;
        match calendar::chrono_month_day_from_ordinal(y.get(), day_of_year) {
            Some((m, d)) => Ok(Self { year, month: m, day: d }),
            None => Err(AppError::InvalidOrdinalDay),
        }
    }

    pub fn year(&self) -> (r: u32)
        ensures
            r == self.y(),
    {
        self.year
    }

    pub fn month(&self) -> (r: u32)
        ensures
            r == self.m(),
    {
        self.month
    }

    pub fn day(&self) -> (r: u32)
        ensures
            r == self.d(),
    {
        self.day
    }
}


/// Two dates are the same value exactly when their components agree.
pub proof fn lemma_date_eq(a: ValidatedDate, b: ValidatedDate)
    ensures
        (a == b) <==> (a.y() == b.y() && a.m() == b.m() && a.d() == b.d()),
{
}


/// Two validated years are the same value exactly when their numbers agree.
pub proof fn lemma_year_eq(a: ValidatedYear, b: ValidatedYear)
    ensures
        (a == b) <==> (a.val() == b.val()),
{
}

/// Two validated months are the same value exactly when their numbers agree.
pub proof fn lemma_month_eq(a: ValidatedMonth, b: ValidatedMonth)
    ensures
        (a == b) <==> (a.val() == b.val()),
{
}

} // verus!
