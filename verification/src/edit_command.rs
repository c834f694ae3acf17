//! The edit command's positional arguments and how they resolve to the date
//! to open: a day range, an ordinal day of a year, a full date, or today.

use vstd::prelude::*;

use crate::calendar;
use crate::edit_argument::EditCommonArgs;
use crate::errors::{AppError, AppResult};
use crate::open_by::OpenByDaysInTime;
use crate::units_validated::ValidatedDate;

verus! {

/// The positional date selection of an edit or delete invocation.
#[derive(Debug, Clone, Copy, PartialEq, Eq, Structural)]
pub struct EditCommand {
    /// Alone: days into the past (negative) or future.  With more
    /// arguments: the year of the wanted date.
    range_or_year: Option<i32>,
    /// With two arguments: the ordinal day of the year.  With three: the
    /// month of the wanted date.
    day_of_year_or_month: Option<u32>,
    /// The day of month of the wanted date.
    day_of_month: Option<u32>,
}

impl EditCommand {
    pub closed spec fn range_or_year_spec(self) -> Option<i32> {
        self.range_or_year
    }

    pub closed spec fn day_of_year_or_month_spec(self) -> Option<u32> {
        self.day_of_year_or_month
    }

    pub closed spec fn day_of_month_spec(self) -> Option<u32> {
        self.day_of_month
    }

    /// The argument shapes the command line can produce: later positional
    /// arguments only together with the earlier ones.
    pub open spec fn wf(self) -> bool {
        &&& (self.day_of_year_or_month_spec() is Some ==> self.range_or_year_spec() is Some)
        &&& (self.day_of_month_spec() is Some ==> self.day_of_year_or_month_spec() is Some)
    }

    pub fn new(
        range_or_year: Option<i32>,
        day_of_year_or_month: Option<u32>,
        day_of_month: Option<u32>,
    ) -> (r: Self)
        ensures
            r.range_or_year_spec() == range_or_year,
            r.day_of_year_or_month_spec() == day_of_year_or_month,
            r.day_of_month_spec() == day_of_month,
    {
        Self { range_or_year, day_of_year_or_month, day_of_month }
    }

    /// Resolves the arguments against the given date standing for today:
    /// no arguments open that date itself, one steps it by the given days,
    /// two name an ordinal day of a year, three a full date.
    pub fn to_advance_valid_date(&self, now: ValidatedDate) -> (r: AppResult<ValidatedDate>)
        requires
            self.wf(),
            now.wf(),
        ensures
            r matches Ok(d) ==> d.wf(),
            (match (
                self.range_or_year_spec(),
                self.day_of_year_or_month_spec(),
                self.day_of_month_spec(),
            ) {
                (Some(pf), None, None) => (if pf < 0 {
                    (r is Ok <==> -pf <= calendar::day_number(
                        now.y() as int,
                        now.m() as int,
                        now.d() as int,
                    )) && (r matches Ok(d) ==> calendar::day_number(
                        d.y() as int,
                        d.m() as int,
                        d.d() as int,
                    ) == calendar::day_number(now.y() as int, now.m() as int, now.d() as int) + pf)
                } else {
                    (r is Ok <==> calendar::day_number(now.y() as int, now.m() as int, now.d() as int)
                        + pf <= calendar::max_day_number()) && (r matches Ok(d)
                        ==> calendar::day_number(d.y() as int, d.m() as int, d.d() as int)
                        == calendar::day_number(now.y() as int, now.m() as int, now.d() as int)
                        + pf)
                }) && (r matches Err(e) ==> e == AppError::DateOutOfRange),
                (Some(year), Some(day_of_year), None) => if year < 0 {
                    r == Err::<ValidatedDate, AppError>(AppError::NegativeYear)
                } else {
                    (r is Ok <==> year <= calendar::YEAR_UPPER_BOUND && 1 <= day_of_year
                        <= calendar::days_in_year(year as int)) && (r matches Ok(d) ==> d.y()
                        == year && calendar::ordinal_of(d.y() as int, d.m() as int, d.d() as int)
                        == day_of_year)
                },
                (Some(year), Some(month), Some(day)) => if year < 0 {
                    r == Err::<ValidatedDate, AppError>(AppError::NegativeYear)
                } else {
                    (r is Ok <==> calendar::is_valid_date(year as int, month as int, day as int))
                        && (r matches Ok(d) ==> d.y() == year && d.m() == month && d.d() == day)
                },
                (None, None, None) => r == Ok::<ValidatedDate, AppError>(now),
                _ => true,
            }),
    {
        match (self.range_or_year, self.day_of_year_or_month, self.day_of_month) {
            (Some(past_future), None, None) => {
                let range = OpenByDaysInTime::new(past_future);
                range.from_point_in_time(now)
            },
            (Some(year), Some(day_of_year), None) => {
                if year < 0 {
                    Err(AppError::NegativeYear)
                } else {
                    ValidatedDate::from_ordinal(year as u32, day_of_year)
                }
            },
            (Some(year), Some(month), Some(day)) => {
                if year < 0 {
                    Err(AppError::NegativeYear)
                } else {
                    ValidatedDate::from_ymd(year as u32, month, day)
                }
            },
            _ => Ok(now),
        }
    }

    /// Resolves the arguments against the clock's current date; the only
    /// failure of its own is a clock outside the supported years.
    pub fn to_advance_now(&self) -> (r: AppResult<ValidatedDate>)
        requires
            self.wf(),
        ensures
            r matches Ok(d) ==> d.wf(),
    {
        match calendar::today_ymd() {
            Some((y, m, d)) => {
                let now = match ValidatedDate::from_ymd(y, m, d) {
                    Ok(now) => now,
                    Err(_) => {
                        proof {
                            assert(false);
                        }
                        return Err(AppError::InvalidDate);
                    },
                };
                self.to_advance_valid_date(now)
            },
            None => Err(AppError::YearOutOfBounds),
        }
    }
}

impl Default for EditCommand {
    /// No arguments: today.
    fn default() -> (r: Self)
        ensures
            r.range_or_year_spec() is None,
            r.day_of_year_or_month_spec() is None,
            r.day_of_month_spec() is None,
    {
        Self { range_or_year: None, day_of_year_or_month: None, day_of_month: None }
    }
}

/// An edit invocation: the date selection and the shared edit options.
#[derive(Debug)]
pub struct EditCommandAndArgs {
    command: EditCommand,
    option: EditCommonArgs,
}

impl EditCommandAndArgs {
    pub closed spec fn command_spec(self) -> EditCommand {
        self.command
    }

    pub closed spec fn option_spec(self) -> EditCommonArgs {
        self.option
    }

    pub fn new(command: EditCommand, option: EditCommonArgs) -> (r: Self)
        ensures
            r.command_spec() == command,
    {
        Self { command, option }
    }

    pub fn command(&self) -> (r: &EditCommand)
        ensures
            *r == self.command_spec(),
    {
        &self.command
    }

    pub fn option(&self) -> (r: &EditCommonArgs)
        ensures
            *r == self.option_spec(),
    {
        &self.option
    }
}

} // verus!
