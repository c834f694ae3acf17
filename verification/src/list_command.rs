//! The list command's filter arguments and their validation.

use vstd::prelude::*;

use crate::calendar::YEAR_UPPER_BOUND;
use crate::errors::AppResult;
use crate::find_by::FindByYearMonthDay;

verus! {

/// Optional year, month and day-of-month filters for listing dailies.
#[derive(Debug, Clone, Copy, PartialEq, Eq, Structural)]
pub struct ListCommand {
    year: Option<u32>,
    month: Option<u32>,
    day_of_month: Option<u32>,
}

impl ListCommand {
    pub closed spec fn year_opt(self) -> Option<u32> {
        self.year
    }

    pub closed spec fn month_opt(self) -> Option<u32> {
        self.month
    }

    pub closed spec fn day_of_month_opt(self) -> Option<u32> {
        self.day_of_month
    }

    pub fn new(year: Option<u32>, month: Option<u32>, day_of_month: Option<u32>) -> (r: Self)
        ensures
            r.year_opt() == year,
            r.month_opt() == month,
            r.day_of_month_opt() == day_of_month,
    {
        Self { year, month, day_of_month }
    }

    /// Validates the given fields into a filter query.
    pub fn to_date_filter(&self) -> (r: AppResult<FindByYearMonthDay>)
        ensures
            r is Ok <==> ((self.year_opt() matches Some(y) ==> y <= YEAR_UPPER_BOUND) && (
            self.month_opt() matches Some(m) ==> 1 <= m <= 12) && (self.day_of_month_opt()
                matches Some(d) ==> 1 <= d <= 31)),
            r matches Ok(f) ==> f.wf() && (match self.year_opt() {
                Some(y) => f.year_opt() matches Some(vy) && vy.val() == y,
                None => f.year_opt() is None,
            }) && (match self.month_opt() {
                Some(m) => f.month_opt() matches Some(vm) && vm.val() == m,
                None => f.month_opt() is None,
            }) && (match self.day_of_month_opt() {
                Some(d) => f.day_opt() matches Some(vd) && vd.val() == d,
                None => f.day_opt() is None,
            }),
    {
        FindByYearMonthDay::new(self.year, self.month, self.day_of_month)
    }
}

} // verus!
