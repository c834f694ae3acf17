//! Mathematical model of the proleptic Gregorian calendar, together with the
//! trusted wrappers around chrono's `NaiveDate`, the date primitive that
//! decides calendar legality and does the day arithmetic for this crate.

use vstd::prelude::*;

verus! {

/// Highest year the underlying date primitive (chrono's `NaiveDate`) can
/// represent; years of journal entries never exceed it.
pub const YEAR_UPPER_BOUND: u32 = 262142;

pub open spec fn is_leap_year(y: int) -> bool {
    (y % 4 == 0 && y % 100 != 0) || y % 400 == 0
}

pub open spec fn days_in_month(y: int, m: int) -> int {
    if m == 2 {
        if is_leap_year(y) {
            29
        } else {
            28
        }
    } else if m == 4 || m == 6 || m == 9 || m == 11 {
        30
    } else {
        31
    }
}

/// A real calendar date that the date primitive can represent.
pub open spec fn is_valid_date(y: int, m: int, d: int) -> bool {
    &&& 0 <= y <= YEAR_UPPER_BOUND
    &&& 1 <= m <= 12
    &&& 1 <= d <= days_in_month(y, m)
}

pub open spec fn days_in_year(y: int) -> int {
    if is_leap_year(y) {
        366
    } else {
        365
    }
}

/// Days in year `y` that lie before month `m`.
pub open spec fn days_before_month(y: int, m: int) -> int
    decreases m,
{
    if m <= 1 {
        0
    } else {
        days_before_month(y, m - 1) + days_in_month(y, m - 1)
    }
}

/// Day of the year, starting at 1 for January 1st.
pub open spec fn ordinal_of(y: int, m: int, d: int) -> int {
    days_before_month(y, m) + d
}

/// Days in all years before year `y` (counted from year 0).
pub open spec fn days_before_year(y: nat) -> int
    decreases y,
{
    if y == 0 {
        0
    } else {
        days_before_year((y - 1) as nat) + days_in_year(y - 1)
    }
}

/// Linear day count of a date: 0 for year 0, January 1st, increasing by one
/// per calendar day.
pub open spec fn day_number(y: int, m: int, d: int) -> int {
    days_before_year(if y >= 0 {
        y as nat
    } else {
        0
    }) + days_before_month(y, m) + d - 1
}

/// Day count of the last date the primitive can represent.
pub open spec fn max_day_number() -> int {
    day_number(YEAR_UPPER_BOUND as int, 12, 31)
}

/// Relies on chrono's `NaiveDate::from_ymd_opt`: it returns `Some` exactly for
/// proleptic-Gregorian calendar dates whose year is in chrono's range.
#[verifier::external_body]
pub(crate) fn chrono_ymd_is_valid(year: u32, month: u32, day: u32) -> (r: bool)
    requires
        year <= 0x7fff_ffff,
    ensures
        r == is_valid_date(year as int, month as int, day as int),
{
    chrono::NaiveDate::from_ymd_opt(year as i32, month, day).is_some()
}

/// Relies on chrono's `NaiveDate::from_yo_opt`: it resolves a day-of-year
/// ordinal to the month and day of that date, and returns `None` exactly when
/// the ordinal is 0 or larger than the number of days in the year.
#[verifier::external_body]
pub(crate) fn chrono_month_day_from_ordinal(year: u32, ordinal: u32) -> (r: Option<(u32, u32)>)
    requires
        year <= YEAR_UPPER_BOUND,
    ensures
        r is Some <==> 1 <= ordinal <= days_in_year(year as int),
        r matches Some(md) ==> is_valid_date(year as int, md.0 as int, md.1 as int)
            && ordinal_of(year as int, md.0 as int, md.1 as int) == ordinal,
{
    let date = chrono::NaiveDate::from_yo_opt(year as i32, ordinal)?;
    Some((chrono::Datelike::month(&date), chrono::Datelike::day(&date)))
}

/// Relies on chrono's `NaiveDate::checked_add_days`: it moves a date forward
/// by the given number of days and returns `None` exactly when the result
/// would fall beyond the last representable date.
#[verifier::external_body]
pub(crate) fn chrono_date_plus_days(year: u32, month: u32, day: u32, n: u32) -> (r: Option<
    (u32, u32, u32),
>)
    requires
        is_valid_date(year as int, month as int, day as int),
    ensures
        r is Some <==> day_number(year as int, month as int, day as int) + n <= max_day_number(),
        r matches Some(t) ==> is_valid_date(t.0 as int, t.1 as int, t.2 as int) && day_number(
            t.0 as int,
            t.1 as int,
            t.2 as int,
        ) == day_number(year as int, month as int, day as int) + n,
{
    let date = chrono::NaiveDate::from_ymd_opt(year as i32, month, day)?;
    let moved = date.checked_add_days(chrono::Days::new(n as u64))?;
    let y = u32::try_from(chrono::Datelike::year(&moved)).ok()?;
    Some((y, chrono::Datelike::month(&moved), chrono::Datelike::day(&moved)))
}

/// Relies on chrono's `NaiveDate::checked_sub_days`: it moves a date backward
/// by the given number of days; the result is kept only when it does not fall
/// before year 0, so `None` comes back exactly when `n` exceeds the date's
/// day count.
#[verifier::external_body]
pub(crate) fn chrono_date_minus_days(year: u32, month: u32, day: u32, n: u32) -> (r: Option<
    (u32, u32, u32),
>)
    requires
        is_valid_date(year as int, month as int, day as int),
    ensures
        r is Some <==> n <= day_number(year as int, month as int, day as int),
        r matches Some(t) ==> is_valid_date(t.0 as int, t.1 as int, t.2 as int) && day_number(
            t.0 as int,
            t.1 as int,
            t.2 as int,
        ) == day_number(year as int, month as int, day as int) - n,
{
    let date = chrono::NaiveDate::from_ymd_opt(year as i32, month, day)?;
    let moved = date.checked_sub_days(chrono::Days::new(n as u64))?;
    let y = u32::try_from(chrono::Datelike::year(&moved)).ok()?;
    Some((y, chrono::Datelike::month(&moved), chrono::Datelike::day(&moved)))
}

/// Relies on chrono's `Local::now`: whatever moment it reports, the reported
/// calendar date is a real date the primitive can represent; nothing more is
/// assumed of it.
#[verifier::external_body]
pub(crate) fn today_ymd() -> (r: Option<(u32, u32, u32)>)
    ensures
        r matches Some(t) ==> is_valid_date(t.0 as int, t.1 as int, t.2 as int),
{
    let now = chrono::Local::now().date_naive();
    let y = u32::try_from(chrono::Datelike::year(&now)).ok()?;
    Some((y, chrono::Datelike::month(&now), chrono::Datelike::day(&now)))
}

} // verus!
