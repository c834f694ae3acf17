//! The month-edit command's arguments and how they resolve to a
//! month-in-year query.

use vstd::prelude::*;

use crate::calendar::YEAR_UPPER_BOUND;
use crate::edit_argument::EditCommonArgs;
use crate::errors::{AppError, AppResult};
use crate::open_by::OpenByMonthInYear;
use crate::units_validated::{ValidatedMonth, ValidatedYear};

verus! {

/// The positional month selection: nothing for the running month, a month
/// of the running year, or a month with its year.
#[derive(Debug, Clone, Copy, PartialEq, Eq, Structural)]
pub struct EditByMonthCommand {
    month: Option<u32>,
    year: Option<u32>,
}

impl EditByMonthCommand {
    pub closed spec fn month_opt(self) -> Option<u32> {
        self.month
    }

    pub closed spec fn year_opt(self) -> Option<u32> {
        self.year
    }

    /// A year only arrives together with a month.
    pub open spec fn wf(self) -> bool {
        self.year_opt() is Some ==> self.month_opt() is Some
    }

    pub fn new(month: Option<u32>, year: Option<u32>) -> (r: Self)
        ensures
            r.month_opt() == month,
            r.year_opt() == year,
    {
        Self { month, year }
    }

    /// Validates the arguments into a month-in-year query.
    pub fn to_valid_ym_pair(&self) -> (r: AppResult<OpenByMonthInYear>)
        requires
            self.wf(),
        ensures
            (match (self.month_opt(), self.year_opt()) {
                (None, None) => r == Ok::<OpenByMonthInYear, AppError>(
                    OpenByMonthInYear::CurrentMonth,
                ),
                (Some(m), None) => ((r is Ok <==> 1 <= m <= 12) && (r matches Ok(q)
                    ==> q matches OpenByMonthInYear::InCurrentYear(vm) && vm.val() == m && vm.wf())
                    && (r matches Err(e) ==> e == AppError::MonthOutOfBounds)),
                (Some(m), Some(y)) => ((r is Ok <==> 1 <= m <= 12 && y <= YEAR_UPPER_BOUND) && (
                r matches Ok(q) ==> q matches OpenByMonthInYear::WithYear { month, year }
                    && month.val() == m && year.val() == y && month.wf() && year.wf()) && (
                r matches Err(e) ==> e == (if m < 1 || m > 12 {
                    AppError::MonthOutOfBounds
                } else {
                    AppError::YearOutOfBounds
                }))),
                _ => true,
            }),
            r matches Ok(q) ==> q.wf(),
    {
        match (self.month, self.year) {
            (None, None) => Ok(OpenByMonthInYear::CurrentMonth),
            (Some(month), None) => {
                let month = ValidatedMonth::try_from(month)?;
                Ok(OpenByMonthInYear::InCurrentYear(month))
            },
            (Some(month), Some(year)) => {
                let month = ValidatedMonth::try_from(month)?;
                let year = ValidatedYear::try_from(year)?;
                Ok(OpenByMonthInYear::WithYear { month, year })
            },
            (None, Some(_)) => Ok(OpenByMonthInYear::CurrentMonth),
        }
    }
}

/// A month-edit invocation: the month selection and the shared edit options.
#[derive(Debug)]
pub struct EditByMonthCommandAndArgs {
    command: EditByMonthCommand,
    option: EditCommonArgs,
}

impl EditByMonthCommandAndArgs {
    pub closed spec fn command_spec(self) -> EditByMonthCommand {
        self.command
    }

    pub closed spec fn option_spec(self) -> EditCommonArgs {
        self.option
    }

    pub fn new(command: EditByMonthCommand, option: EditCommonArgs) -> (r: Self)
        ensures
            r.command_spec() == command,
    {
        Self { command, option }
    }

    pub fn command(&self) -> (r: &EditByMonthCommand)
        ensures
            *r == self.command_spec(),
    {
        &self.command
    }

    pub fn option(&self) -> (r: &EditCommonArgs)
        ensures
            *r == self.option_spec(),
    {
        &self.option
    }
}

} // verus!
