use daily_ruster_man::dates_names::{DateNameForFile, ToDateTuple};
use daily_ruster_man::errors::AppError;
use daily_ruster_man::dates_names::HasYear;
use daily_ruster_man::monthly_name::MonthlyName;
use daily_ruster_man::units_validated::ValidatedYear;
use daily_ruster_man::yearly_name::{ParseErrorForYearName, YearlyName};

fn assert_if_name_with_month_year(y: u32, m: u32, expected: &str) {
    let given = MonthlyName::from_ym(y, m, "md").expect("Invalid month name");

    let actual = given.name();
    assert_eq!(expected, actual);
}

#[test]
fn should_produce_name_with_year_month() {
    assert_if_name_with_month_year(2000, 8, "2000_08_monthly.md");
    assert_if_name_with_month_year(1990, 11, "1990_11_monthly.md");
    assert_if_name_with_month_year(800, 1, "0800_01_monthly.md");
}

#[test]
fn should_parse_from_str() {
    let given = "2000_08_monthly.md";
    let actual: MonthlyName = given
        .parse()
        .expect("Parsing should not fail in this test.");
    let expected = MonthlyName::from_ym(2000, 8, "md").expect("Invalid month given.");

    assert_eq!(expected, actual);
}

#[test]
fn should_fail_parse_str() {
    let given = "2000_08_12_monthly.md";
    let has_failed = given.parse::<MonthlyName>().is_err();

    assert!(has_failed);
}

#[test]
fn should_return_month_year_pair() {
    let given = MonthlyName::from_ym(2000, 11, "md").expect("Invalid month given.");
    let actual = given.to_date_tuple();
    let expected = "2000 11";

    assert_eq!(expected, actual);
}

#[test]
fn monthly_parse_reports_specific_errors() {
    assert_eq!("33".parse::<MonthlyName>().unwrap_err(), AppError::InvalidFormat);
    assert_eq!(
        "aa_08_monthly.md".parse::<MonthlyName>().unwrap_err(),
        AppError::YearNotNumeric
    );
    assert_eq!(
        "2000_xx_monthly.md".parse::<MonthlyName>().unwrap_err(),
        AppError::MonthNotNumeric
    );
    assert_eq!(
        "2000_13_monthly.md".parse::<MonthlyName>().unwrap_err(),
        AppError::MonthOutOfBounds
    );
    assert_eq!(
        "999999_12_monthly.md".parse::<MonthlyName>().unwrap_err(),
        AppError::YearOutOfBounds
    );
}

fn create_yearly_name_from(year: u32) -> YearlyName {
    let validated_year = ValidatedYear::try_from(year).expect("Given year is not valid");
    YearlyName::new(validated_year)
}

#[test]
fn should_construct_correct_yearly_name() {
    assert_eq!(create_yearly_name_from(2000).name(), "2000_yearly.md");
    assert_eq!(create_yearly_name_from(100).name(), "0100_yearly.md");
    assert_eq!(create_yearly_name_from(28).name(), "0028_yearly.md");
    assert_eq!(create_yearly_name_from(5).name(), "0005_yearly.md");
}

#[test]
fn should_produce_yearly_date_tuple() {
    assert_eq!(create_yearly_name_from(2000).to_date_tuple(), "2000");
    assert_eq!(create_yearly_name_from(120).to_date_tuple(), "0120");
    assert_eq!(create_yearly_name_from(20).to_date_tuple(), "0020");
    assert_eq!(create_yearly_name_from(3).to_date_tuple(), "0003");
}

#[test]
fn should_parse_yearly_names() {
    for (input, expected_year, canonical) in [
        ("2000_yearly.md", 2000, "2000_yearly.md"),
        ("1988_yearly.md", 1988, "1988_yearly.md"),
        ("188_yearly.md", 188, "0188_yearly.md"),
        ("1_yearly.md", 1, "0001_yearly.md"),
        ("24_yearly.md", 24, "0024_yearly.md"),
    ] {
        let parsed: YearlyName = input.parse().expect("Should not fail for valid input");
        assert_eq!(parsed.year(), expected_year, "for input {input}");
        // A parsed value reproduces the name `format` would derive for it.
        assert_eq!(parsed.name(), canonical);
    }
}

#[test]
fn should_fail_parsing_yearly() {
    assert_eq!(
        "aa_aa.md".parse::<YearlyName>().unwrap_err(),
        ParseErrorForYearName::MissingYear
    );
    assert_eq!(
        "222a_aa.md".parse::<YearlyName>().unwrap_err(),
        ParseErrorForYearName::MissingYear
    );
    assert_eq!(
        "33".parse::<YearlyName>().unwrap_err(),
        ParseErrorForYearName::InvalidFormat
    );
    assert_eq!(
        "999999_yearly.md".parse::<YearlyName>().unwrap_err(),
        ParseErrorForYearName::InvalidYear(AppError::YearOutOfBounds)
    );
}

#[test]
fn monthly_name_round_trips_through_its_file_name() {
    let built = MonthlyName::from_ym(1980, 2, "md").unwrap();
    let parsed: MonthlyName = built.name().parse().unwrap();
    assert_eq!(built, parsed);
}

#[test]
fn yearly_name_round_trips_through_its_file_name() {
    let built = create_yearly_name_from(412);
    let parsed: YearlyName = built.name().parse().unwrap();
    assert_eq!(built, parsed);
}
