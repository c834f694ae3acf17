//! Queries for opening a journal: a day some steps in the past or future,
//! or a month in a year.

use vstd::prelude::*;

use crate::calendar;
use crate::errors::{AppError, AppResult};
use crate::units_validated::{ValidatedDate, ValidatedMonth, ValidatedYear};

verus! {

/// A count of days into the past or the future, relative to some date.
#[derive(Debug, Clone, Copy, PartialEq, Eq, Structural)]
pub enum OpenByDaysInTime {
    Past(u32),
    Future(u32),
}

impl OpenByDaysInTime {
    /// Negative numbers step into the past, others into the future.
    pub fn new(past_or_future: i32) -> (r: Self)
        ensures
            past_or_future < 0 ==> r == OpenByDaysInTime::Past((-(past_or_future as int)) as u32),
            past_or_future >= 0 ==> r == OpenByDaysInTime::Future(past_or_future as u32),
    {
        if past_or_future < 0 {
            let magnitude = (-(past_or_future as i64)) as u32;
            OpenByDaysInTime::Past(magnitude)
        } else {
            OpenByDaysInTime::Future(past_or_future as u32)
        }
    }

    /// Steps the given date by this range; fails exactly when the moved date
    /// would leave the representable calendar.
    pub fn from_point_in_time(&self, date: ValidatedDate) -> (r: AppResult<ValidatedDate>)
        requires
            date.wf(),
        ensures
            *self matches OpenByDaysInTime::Past(n) ==> ((r is Ok <==> n <= calendar::day_number(
                date.y() as int,
                date.m() as int,
                date.d() as int,
            )) && (r matches Ok(moved) ==> moved.wf() && calendar::day_number(
                moved.y() as int,
                moved.m() as int,
                moved.d() as int,
            ) == calendar::day_number(date.y() as int, date.m() as int, date.d() as int) - n)),
            *self matches OpenByDaysInTime::Future(n) ==> ((r is Ok <==> calendar::day_number(
                date.y() as int,
                date.m() as int,
                date.d() as int,
            ) + n <= calendar::max_day_number()) && (r matches Ok(moved) ==> moved.wf()
                && calendar::day_number(moved.y() as int, moved.m() as int, moved.d() as int)
                == calendar::day_number(date.y() as int, date.m() as int, date.d() as int) + n)),
            r matches Err(e) ==> e == AppError::DateOutOfRange,
    {
        let moved = match self {
            OpenByDaysInTime::Past(past) => calendar::chrono_date_minus_days(
                date.year(),
                date.month(),
                date.day(),
                *past,
            ),
            OpenByDaysInTime::Future(future) => calendar::chrono_date_plus_days(
                date.year(),
                date.month(),
                date.day(),
                *future,
            ),
        };
        match moved {
            Some((y, m, d)) => {
                let rebuilt = ValidatedDate::from_ymd(y, m, d);
                match rebuilt {
                    Ok(date) => Ok(date),
                    Err(_) => {
                        proof {
                            assert(false);
                        }
                        Err(AppError::DateOutOfRange)
                    },
                }
            },
            None => Err(AppError::DateOutOfRange),
        }
    }
}

/// Which monthly journal to open: the running month, a month of the running
/// year, or a fully given month and year.
#[derive(Debug, Clone, Copy, PartialEq, Eq, Structural)]
pub enum OpenByMonthInYear {
    CurrentMonth,
    InCurrentYear(ValidatedMonth),
    WithYear { month: ValidatedMonth, year: ValidatedYear },
}

impl OpenByMonthInYear {
    pub open spec fn wf(self) -> bool {
        match self {
            OpenByMonthInYear::CurrentMonth => true,
            OpenByMonthInYear::InCurrentYear(m) => m.wf(),
            OpenByMonthInYear::WithYear { month, year } => month.wf() && year.wf(),
        }
    }
}

} // verus!
