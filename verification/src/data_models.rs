//! Raw query models kept alongside the validated ones: plain numeric
//! fields with their bounds checked on construction.

use vstd::prelude::*;

use crate::calendar;
use crate::errors::{AppError, AppResult};
use crate::find_by::{check_for_day, check_for_month};

verus! {

/// A count of days into the past or the future.
#[derive(Debug, Clone, Copy, PartialEq, Eq, Structural)]
pub enum PastFuture {
    Past(u32),
    Future(u32),
}

impl PastFuture {
    /// Negative numbers step into the past, others into the future.
    pub fn new(past_or_future: i32) -> (r: Self)
        ensures
            past_or_future < 0 ==> r == PastFuture::Past((-(past_or_future as int)) as u32),
            past_or_future >= 0 ==> r == PastFuture::Future(past_or_future as u32),
    {
        if past_or_future < 0 {
            let magnitude = (-(past_or_future as i64)) as u32;
            PastFuture::Past(magnitude)
        } else {
            PastFuture::Future(past_or_future as u32)
        }
    }
}

/// A year with a day-of-year ordinal.
#[derive(Debug, Clone, Copy, PartialEq, Eq, Structural)]
pub struct DayOfYear {
    year: u32,
    day_of_year: u32,
}

impl DayOfYear {
    pub closed spec fn year_spec(self) -> u32 {
        self.year
    }

    pub closed spec fn day_of_year_spec(self) -> u32 {
        self.day_of_year
    }

    pub fn new(year: u32, day_of_year: u32) -> (r: Self)
        ensures
            r.year_spec() == year && r.day_of_year_spec() == day_of_year,
    {
        Self { year, day_of_year }
    }

    pub fn year(&self) -> (r: u32)
        ensures
            r == self.year_spec(),
    {
        self.year
    }

    pub fn day_of_year(&self) -> (r: u32)
        ensures
            r == self.day_of_year_spec(),
    {
        self.day_of_year
    }
}

/// A raw year, month and day triple.
#[derive(Debug, Clone, Copy, PartialEq, Eq, Structural)]
pub struct DayMonthYear {
    year: u32,
    month: u32,
    day: u32,
}

impl DayMonthYear {
    pub closed spec fn year_spec(self) -> u32 {
        self.year
    }

    pub closed spec fn month_spec(self) -> u32 {
        self.month
    }

    pub closed spec fn day_spec(self) -> u32 {
        self.day
    }

    pub fn new(year: u32, month: u32, day: u32) -> (r: Self)
        ensures
            r.year_spec() == year && r.month_spec() == month && r.day_spec() == day,
    {
        Self { year, month, day }
    }

    pub fn year(&self) -> (r: u32)
        ensures
            r == self.year_spec(),
    {
        self.year
    }

    pub fn month(&self) -> (r: u32)
        ensures
            r == self.month_spec(),
    {
        self.month
    }

    pub fn day(&self) -> (r: u32)
        ensures
            r == self.day_spec(),
    {
        self.day
    }
}

/// A raw listing filter: optional year, month and day, checked for bounds
/// when constructed.
#[derive(Debug, Clone, Copy, PartialEq, Eq, Structural)]
pub struct FilterParamsYmD {
    year: Option<u32>,
    month: Option<u32>,
    day: Option<u32>,
}

impl FilterParamsYmD {
    pub closed spec fn year_opt(self) -> Option<u32> {
        self.year
    }

    pub closed spec fn month_opt(self) -> Option<u32> {
        self.month
    }

    pub closed spec fn day_opt(self) -> Option<u32> {
        self.day
    }

    /// What a raw filter must satisfy to be accepted: a full triple must be
    /// a real calendar date, partial fields only their own bounds.
    pub open spec fn accepted(
        y_opt: Option<u32>,
        m_opt: Option<u32>,
        d_opt: Option<u32>,
    ) -> bool {
        match (y_opt, m_opt, d_opt) {
            (Some(y), Some(m), Some(d)) => calendar::is_valid_date(y as int, m as int, d as int),
            (_, Some(m), Some(d)) => 1 <= d <= 31 && 1 <= m <= 12,
            (_, Some(m), None) => 1 <= m <= 12,
            (_, None, Some(d)) => 1 <= d <= 31,
            _ => true,
        }
    }

    pub fn new(y_opt: Option<u32>, m_opt: Option<u32>, d_opt: Option<u32>) -> (r: AppResult<Self>)
        ensures
            r is Ok <==> Self::accepted(y_opt, m_opt, d_opt),
            r matches Ok(f) ==> f.year_opt() == y_opt && f.month_opt() == m_opt && f.day_opt()
                == d_opt,
    {
        match (y_opt, m_opt, d_opt) {
            (Some(y), Some(m), Some(d)) => {
                if y > 0x7fff_ffff {
                    return Err(AppError::InvalidDate);
                }
                if !calendar::chrono_ymd_is_valid(y, m, d) {
                    return Err(AppError::InvalidDate);
                }
            },
            (_, Some(m), Some(d)) => {
                check_for_day(d)?;
                check_for_month(m)?;
            },
            (_, Some(m), None) => {
                check_for_month(m)?;
            },
            (_, None, Some(d)) => {
                check_for_day(d)?;
            },
            _ => (),
        }
        Ok(Self { year: y_opt, month: m_opt, day: d_opt })
    }

    pub fn year(&self) -> (r: Option<u32>)
        ensures
            r == self.year_opt(),
    {
        self.year
    }

    pub fn month(&self) -> (r: Option<u32>)
        ensures
            r == self.month_opt(),
    {
        self.month
    }

    pub fn day(&self) -> (r: Option<u32>)
        ensures
            r == self.day_opt(),
    {
        self.day
    }
}

} // verus!
