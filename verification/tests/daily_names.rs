use daily_ruster_man::daily_names::{DailyName, ParseDailyNameError};
use daily_ruster_man::dates_names::{DateNameForFile, ToDateTuple};
use daily_ruster_man::open_by::OpenByDaysInTime;
use daily_ruster_man::units_validated::ValidatedDate;
use daily_ruster_man::errors::AppError;

fn assert_if_parse_fails_with(invalid_input: &str, expected_error: ParseDailyNameError) {
    match invalid_input.parse::<DailyName>() {
        Ok(_) => panic!("Should not parse on this invalid input {}", invalid_input),
        Err(error) => assert_eq!(error, expected_error),
    };
}

fn assert_parse(valid: &str, expected: ValidatedDate) {
    if let Ok(parsed) = valid.parse::<DailyName>() {
        assert_eq!(parsed.date(), expected);
    } else {
        panic!("Did parse valid input correctly, ({})", valid);
    }
}

fn assert_turn_to_date_tuple(y: u32, m: u32, d: u32, expected: &str) {
    let given = DailyName::new(y, m, d, "md")
        .expect("Invalid date provided for tuple ")
        .to_date_tuple();

    assert_eq!(expected, given);
}

fn assert_daily_from_range(
    range: OpenByDaysInTime,
    g_year: u32,
    g_month: u32,
    g_day: u32,
    ex_year: u32,
    ex_month: u32,
    ex_day: u32,
) {
    let given_date = ValidatedDate::from_ymd(g_year, g_month, g_day).expect("Invalid given date");
    let expected = DailyName::new(ex_year, ex_month, ex_day, "md").expect("Invalid expected date");

    let actual = range
        .from_point_in_time(given_date)
        .expect("Invalid past or future steps");
    let actual_daily = DailyName::from_date(actual);
    assert_eq!(expected, actual_daily);
}

fn assert_daily_name_new(y: u32, m: u32, d: u32) {
    let expected = format!("{y}_{m:02}_{d:02}_daily.md");

    let actual = DailyName::new(y, m, d, "md").expect("Invalid date for daily name");
    assert_eq!(expected, *actual.name());
}

#[test]
fn test_daily_names_test_parse_error() {
    assert_if_parse_fails_with("daily.md", ParseDailyNameError::MissingYear);
    assert_if_parse_fails_with("2000_daily.md", ParseDailyNameError::MissingMonth);
    assert_if_parse_fails_with("aa_02_07_daily.md", ParseDailyNameError::YearNotANumber);
    assert_if_parse_fails_with("2000_z_2_daily.md", ParseDailyNameError::MonthNotANumber);
    assert_if_parse_fails_with("2000_2_-7_daily.md", ParseDailyNameError::DayNotANumber);
    assert_if_parse_fails_with("2000_2_32_daily.md", ParseDailyNameError::InvalidDate);
    assert_if_parse_fails_with("2000_0_1_daily.md", ParseDailyNameError::InvalidDate);
    assert_if_parse_fails_with("-78_2_2_daily.md", ParseDailyNameError::YearNotANumber);
}

#[test]
fn test_daily_names_should_turn_to_date_tuple() {
    assert_turn_to_date_tuple(2000, 7, 3, "2000 07 03");
    assert_turn_to_date_tuple(1980, 11, 23, "1980 11 23");
    assert_turn_to_date_tuple(2011, 4, 13, "2011 04 13");
    assert_turn_to_date_tuple(2023, 10, 6, "2023 10 06");
}

#[test]
fn test_daily_names_test_parse() {
    assert_parse(
        "2023_01_07_daily.md",
        ValidatedDate::from_ymd(2023, 1, 7).unwrap(),
    );
    assert_parse(
        "1981_11_24_daily.md",
        ValidatedDate::from_ymd(1981, 11, 24).unwrap(),
    );
    assert_parse(
        "2001_02_20_daily.md",
        ValidatedDate::from_ymd(2001, 2, 20).unwrap(),
    );
}

#[test]
fn test_daily_names_test_create_daily_in_past() {
    assert_daily_from_range(OpenByDaysInTime::Past(2), 2022, 2, 8, 2022, 2, 6);
    assert_daily_from_range(OpenByDaysInTime::Past(40), 2022, 2, 7, 2021, 12, 29);
    assert_daily_from_range(OpenByDaysInTime::Past(0), 1980, 1, 1, 1980, 1, 1);
}

#[test]
fn test_daily_names_test_create_daily_in_future() {
    assert_daily_from_range(OpenByDaysInTime::Future(2), 2022, 2, 8, 2022, 2, 10);
    assert_daily_from_range(OpenByDaysInTime::Future(40), 2022, 2, 7, 2022, 3, 19);
    assert_daily_from_range(OpenByDaysInTime::Future(0), 1980, 1, 1, 1980, 1, 1);
}

#[test]
fn test_daily_names_test_new() {
    assert_daily_name_new(2000, 8, 20);
    assert_daily_name_new(1988, 5, 2);
    assert_daily_name_new(2022, 1, 30);
    assert_daily_name_new(1970, 12, 1);
}

#[test]
fn daily_name_round_trips_through_its_file_name() {
    let built = DailyName::new(2023, 1, 7, "md").unwrap();
    let parsed: DailyName = built.name().parse().expect("canonical name must parse");
    assert_eq!(built, parsed);

    let low_year = DailyName::new(5, 12, 31, "md").unwrap();
    assert_eq!(low_year.name(), "5_12_31_daily.md");
    let parsed_low: DailyName = low_year.name().parse().unwrap();
    assert_eq!(low_year, parsed_low);
}

#[test]
fn daily_date_key_orders_by_date_fields() {
    let older = DailyName::new(1999, 12, 31, "md").unwrap();
    let newer = DailyName::new(2000, 1, 1, "md").unwrap();
    assert!(newer.date_key() > older.date_key());
}

#[test]
fn out_of_range_step_reports_date_out_of_range() {
    let date = ValidatedDate::from_ymd(2000, 1, 1).unwrap();
    let too_far_back = OpenByDaysInTime::Past(u32::MAX);
    assert_eq!(too_far_back.from_point_in_time(date).unwrap_err(), AppError::DateOutOfRange);
    let too_far_ahead = OpenByDaysInTime::Future(u32::MAX);
    assert_eq!(too_far_ahead.from_point_in_time(date).unwrap_err(), AppError::DateOutOfRange);
}

#[test]
fn todays_name_has_the_canonical_shape() {
    let today = DailyName::create_today_name().expect("clock date should resolve");
    let reparsed: DailyName = today.name().parse().expect("canonical names parse back");
    assert_eq!(today, reparsed);

    let yesterday = DailyName::create_from_range(&OpenByDaysInTime::Past(1))
        .expect("one day back stays in range");
    assert!(yesterday.date_key() <= today.date_key());
}
