use daily_ruster_man::calendar::YEAR_UPPER_BOUND;
use daily_ruster_man::errors::AppError;
use daily_ruster_man::units_validated::{ValidatedDate, ValidatedDay, ValidatedMonth, ValidatedYear};

fn assert_accept_valid_year(given: u32) {
    let actual = ValidatedYear::try_from(given).expect("Valid year is treated as invalid");
    assert_eq!(actual.get(), given);
}

fn assert_accept_valid_month(given: u32) {
    let actual = ValidatedMonth::try_from(given).expect("Valid month is treated as invalid");
    assert_eq!(actual.get(), given);
}

fn assert_accept_valid_day(given: u32) {
    let actual = ValidatedDay::try_from(given).expect("Valid day is treated as invalid");
    assert_eq!(actual.get(), given);
}

#[test]
fn should_accept_valid_years() {
    assert_accept_valid_year(1);
    assert_accept_valid_year(0);
    assert_accept_valid_year(2000);
    assert_accept_valid_year(1991);
    assert_accept_valid_year(2030);
    assert_accept_valid_year(1625);
    assert_accept_valid_year(YEAR_UPPER_BOUND);
}

#[test]
fn should_accept_valid_month() {
    for month_index in 1..=12 {
        assert_accept_valid_month(month_index);
    }
}

#[test]
fn should_accept_valid_days() {
    for month_index in 1..=31 {
        assert_accept_valid_day(month_index);
    }
}

#[test]
fn should_deny_invalid_year() {
    assert!(ValidatedYear::try_from(YEAR_UPPER_BOUND + 1).is_err());
    assert!(ValidatedYear::try_from(YEAR_UPPER_BOUND + 1000).is_err());
    assert!(ValidatedYear::try_from(u32::MAX).is_err());
    assert!(ValidatedYear::try_from(u32::MAX - 100).is_err());
}

#[test]
fn should_deny_invalid_months() {
    assert!(ValidatedMonth::try_from(0).is_err());
    assert!(ValidatedMonth::try_from(13).is_err());
    assert!(ValidatedMonth::try_from(u32::MAX).is_err());
    assert!(ValidatedMonth::try_from(u32::MAX / 2).is_err());
}

#[test]
fn should_deny_invalid_days() {
    assert!(ValidatedDay::try_from(0).is_err());
    assert!(ValidatedDay::try_from(32).is_err());
    assert!(ValidatedDay::try_from(u32::MAX).is_err());
    assert!(ValidatedDay::try_from(u32::MAX / 2).is_err());
}

fn assert_if_valid_date_is_accepted(year: u32, month: u32, day: u32) {
    let validated_year = ValidatedYear::try_from(year).expect("year for date is not valid in general");
    let validated_month =
        ValidatedMonth::try_from(month).expect("month for date is not valid in general");
    let validated_day = ValidatedDay::try_from(day).expect("day for date is not valid in general");

    match ValidatedDate::new(validated_year, validated_month, validated_day) {
        Ok(date) => {
            assert_eq!(date.year(), year);
            assert_eq!(date.month(), month);
            assert_eq!(date.day(), day);
        }
        Err(_) => panic!("Error: Encountered for valid date."),
    }
}

fn assert_deny_of_invalid_dates(year: u32, month: u32, day: u32) {
    let validated_year = ValidatedYear::try_from(year).expect("year for date is not valid in general");
    let validated_month =
        ValidatedMonth::try_from(month).expect("month for date is not valid in general");
    let validated_day = ValidatedDay::try_from(day).expect("day for date is not valid in general");
    let actual = ValidatedDate::new(validated_year, validated_month, validated_day);
    assert!(actual.is_err());
}

#[test]
fn should_accept_valid_dates() {
    assert_if_valid_date_is_accepted(2015, 3, 14);
    assert_if_valid_date_is_accepted(2015, 1, 14);
    assert_if_valid_date_is_accepted(4, 2, 27);
    assert_if_valid_date_is_accepted(2023, 1, 12);
    assert_if_valid_date_is_accepted(2023, 2, 28);
    assert_if_valid_date_is_accepted(2020, 2, 29);
}

#[test]
fn should_deny_invalid_date() {
    assert_deny_of_invalid_dates(2015, 4, 31);
    assert_deny_of_invalid_dates(2023, 2, 29);
    assert_deny_of_invalid_dates(2020, 2, 30);
}

#[test]
fn should_report_specific_unit_errors() {
    assert_eq!(
        ValidatedYear::try_from(YEAR_UPPER_BOUND + 1).unwrap_err(),
        AppError::YearOutOfBounds
    );
    assert_eq!(ValidatedMonth::try_from(0).unwrap_err(), AppError::MonthOutOfBounds);
    assert_eq!(ValidatedDay::try_from(32).unwrap_err(), AppError::DayOutOfBounds);
    assert_eq!(ValidatedDate::from_ymd(2023, 2, 29).unwrap_err(), AppError::InvalidDate);
    assert_eq!(
        ValidatedDate::from_ordinal(2023, 366).unwrap_err(),
        AppError::InvalidOrdinalDay
    );
}

#[test]
fn should_resolve_ordinal_days() {
    let date = ValidatedDate::from_ordinal(2222, 42).expect("ordinal day should be valid");
    assert_eq!((date.year(), date.month(), date.day()), (2222, 2, 11));
    let leap_day = ValidatedDate::from_ordinal(2020, 366).expect("leap year has day 366");
    assert_eq!((leap_day.year(), leap_day.month(), leap_day.day()), (2020, 12, 31));
}
