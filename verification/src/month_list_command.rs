//! The month-list command's arguments and how they resolve to a filter for
//! monthly journals.

use vstd::prelude::*;

use crate::calendar::YEAR_UPPER_BOUND;
use crate::errors::{AppError, AppResult};
use crate::find_by::FindByMonthInYear;
use crate::units_validated::{ValidatedMonth, ValidatedYear};

verus! {

/// The positional selection: nothing for all months, a year for its
/// months, or a year with one month.
#[derive(Debug, Clone, Copy, PartialEq, Eq, Structural)]
pub struct ListByMonthCommand {
    year: Option<u32>,
    month: Option<u32>,
}

impl ListByMonthCommand {
    pub closed spec fn year_opt(self) -> Option<u32> {
        self.year
    }

    pub closed spec fn month_opt(self) -> Option<u32> {
        self.month
    }

    /// A month only arrives together with a year.
    pub open spec fn wf(self) -> bool {
        self.month_opt() is Some ==> self.year_opt() is Some
    }

    pub fn new(year: Option<u32>, month: Option<u32>) -> (r: Self)
        ensures
            r.year_opt() == year,
            r.month_opt() == month,
    {
        Self { year, month }
    }

    /// Validates the arguments into a month-in-year filter.
    pub fn create_find_month_in_year(&self) -> (r: AppResult<FindByMonthInYear>)
        requires
            self.wf(),
        ensures
            (match (self.year_opt(), self.month_opt()) {
                (None, None) => r == Ok::<FindByMonthInYear, AppError>(FindByMonthInYear::All),
                (Some(y), None) => ((r is Ok <==> y <= YEAR_UPPER_BOUND) && (r matches Ok(q)
                    ==> q matches FindByMonthInYear::InCurrentYear(vy) && vy.val() == y) && (
                r matches Err(e) ==> e == AppError::YearOutOfBounds)),
                (Some(y), Some(m)) => ((r is Ok <==> 1 <= m <= 12 && y <= YEAR_UPPER_BOUND) && (
                r matches Ok(q) ==> q matches FindByMonthInYear::MonthYear { month, year }
                    && month.val() == m && year.val() == y) && (r matches Err(e) ==> e == (if m < 1
                    || m > 12 {
                    AppError::MonthOutOfBounds
                } else {
                    AppError::YearOutOfBounds
                }))),
                _ => true,
            }),
            r matches Ok(q) ==> q.wf(),
    {
        match (self.year, self.month) {
            (None, None) => Ok(FindByMonthInYear::All),
            (Some(year), None) => {
                let year = ValidatedYear::try_from(year)?;
                Ok(FindByMonthInYear::InCurrentYear(year))
            },
            (Some(year), Some(month)) => {
                let month = ValidatedMonth::try_from(month)?;
                let year = ValidatedYear::try_from(year)?;
                Ok(FindByMonthInYear::MonthYear { month, year })
            },
            (None, Some(_)) => Ok(FindByMonthInYear::All),
        }
    }
}

} // verus!
