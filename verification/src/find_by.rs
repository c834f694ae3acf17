//! Filter queries for listings: optional year/month/day constraints, each
//! validated at construction so filtering itself can never fail.

use vstd::prelude::*;

use crate::errors::{AppError, AppResult};
use crate::units_validated::{ValidatedDay, ValidatedMonth, ValidatedYear};

verus! {

/// Rejects months outside 1..=12.
pub fn check_for_month(m: u32) -> (r: AppResult<()>)
    ensures
        r is Ok <==> 1 <= m <= 12,
        r matches Err(e) ==> e == AppError::MonthOutOfBounds,
{
    if m < 1 || m > 12 {
        Err(AppError::MonthOutOfBounds)
    } else {
        Ok(())
    }
}

/// Rejects days of month outside 1..=31.
pub fn check_for_day(d: u32) -> (r: AppResult<()>)
    ensures
        r is Ok <==> 1 <= d <= 31,
        r matches Err(e) ==> e == AppError::DayOutOfBounds,
{
    if d < 1 || d > 31 {
        Err(AppError::DayOutOfBounds)
    } else {
        Ok(())
    }
}

/// Which daily journals to list: every given field must match, absent fields
/// impose no constraint.
#[derive(Debug, Clone, Copy, PartialEq, Eq, Structural)]
pub struct FindByYearMonthDay {
    year: Option<ValidatedYear>,
    month: Option<ValidatedMonth>,
    day: Option<ValidatedDay>,
}

impl FindByYearMonthDay {
    pub closed spec fn year_opt(self) -> Option<ValidatedYear> {
        self.year
    }

    pub closed spec fn month_opt(self) -> Option<ValidatedMonth> {
        self.month
    }

    pub closed spec fn day_opt(self) -> Option<ValidatedDay> {
        self.day
    }

    pub open spec fn wf(self) -> bool {
        &&& (self.year_opt() matches Some(y) ==> y.wf())
        &&& (self.month_opt() matches Some(m) ==> m.wf())
        &&& (self.day_opt() matches Some(d) ==> d.wf())
    }

    /// Validates each given field; invalid filter input is rejected here,
    /// never at filter-application time.
    pub fn new(y_opt: Option<u32>, m_opt: Option<u32>, d_opt: Option<u32>) -> (r: AppResult<Self>)
        ensures
            r is Ok <==> ((y_opt matches Some(y) ==> y <= crate::calendar::YEAR_UPPER_BOUND) && (
            m_opt matches Some(m) ==> 1 <= m <= 12) && (d_opt matches Some(d) ==> 1 <= d <= 31)),
            r matches Ok(f) ==> f.wf() && (match y_opt {
                Some(y) => f.year_opt() matches Some(vy) && vy.val() == y,
                None => f.year_opt() is None,
            }) && (match m_opt {
                Some(m) => f.month_opt() matches Some(vm) && vm.val() == m,
                None => f.month_opt() is None,
            }) && (match d_opt {
                Some(d) => f.day_opt() matches Some(vd) && vd.val() == d,
                None => f.day_opt() is None,
            }),
    {
        let mut valid_y_opt: Option<ValidatedYear> = None;
        let mut valid_m_opt: Option<ValidatedMonth> = None;
        let mut valid_d_opt: Option<ValidatedDay> = None;
        if let Some(year) = y_opt {
            let valid_year = ValidatedYear::try_from(year)?;
            valid_y_opt = Some(valid_year);
        }
        if let Some(month) = m_opt {
            let valid_month = ValidatedMonth::try_from(month)?;
            valid_m_opt = Some(valid_month);
        }
        if let Some(day) = d_opt {
            let valid_day = ValidatedDay::try_from(day)?;
            valid_d_opt = Some(valid_day);
        }
        Ok(Self { year: valid_y_opt, month: valid_m_opt, day: valid_d_opt })
    }

    pub fn year(&self) -> (r: Option<ValidatedYear>)
        ensures
            r == self.year_opt(),
    {
        self.year
    }

    pub fn month(&self) -> (r: Option<ValidatedMonth>)
        ensures
            r == self.month_opt(),
    {
        self.month
    }

    pub fn day(&self) -> (r: Option<ValidatedDay>)
        ensures
            r == self.day_opt(),
    {
        self.day
    }
}

/// Which monthly journals to list: all of them, those of one year, or one
/// exact month of one year.
#[derive(Debug, Clone, Copy, PartialEq, Eq, Structural)]
pub enum FindByMonthInYear {
    All,
    InCurrentYear(ValidatedYear),
    MonthYear { month: ValidatedMonth, year: ValidatedYear },
}

impl FindByMonthInYear {
    pub open spec fn wf(self) -> bool {
        match self {
            FindByMonthInYear::All => true,
            FindByMonthInYear::InCurrentYear(y) => y.wf(),
            FindByMonthInYear::MonthYear { month, year } => month.wf() && year.wf(),
        }
    }
}

} // verus!
