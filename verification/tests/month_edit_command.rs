use daily_ruster_man::month_edit_command::EditByMonthCommand;
use daily_ruster_man::open_by::OpenByMonthInYear;
use daily_ruster_man::units_validated::{ValidatedMonth, ValidatedYear};
use daily_ruster_man::errors::AppError;

#[test]
fn should_map_to_correct_exact_month_with_year() {
    const MONTH: u32 = 12;
    const YEAR: u32 = 1990;
    let given = EditByMonthCommand::new(Some(MONTH), Some(YEAR));

    let actual = given.to_valid_ym_pair().expect("Invalid month in year");
    assert!(matches!(
        actual,
        OpenByMonthInYear::WithYear { month, year }
        if month == ValidatedMonth::try_from(MONTH).unwrap()
        && year == ValidatedYear::try_from(YEAR).unwrap()
    ));
}

#[test]
fn should_map_to_month_in_current_year() {
    const MONTH: u32 = 12;
    let given = EditByMonthCommand::new(Some(MONTH), None);

    let actual = given.to_valid_ym_pair().expect("Invalid month in year");
    assert!(matches!(
        actual,
        OpenByMonthInYear::InCurrentYear(month)
        if month == ValidatedMonth::try_from(MONTH).unwrap()
    ));
}

#[test]
fn should_map_to_current_month() {
    let given = EditByMonthCommand::new(None, None);

    let actual = given.to_valid_ym_pair().expect("Invalid month in year");
    assert!(matches!(actual, OpenByMonthInYear::CurrentMonth));
}

#[test]
fn should_reject_invalid_month_or_year() {
    assert_eq!(
        EditByMonthCommand::new(Some(13), None).to_valid_ym_pair().unwrap_err(),
        AppError::MonthOutOfBounds
    );
    assert_eq!(
        EditByMonthCommand::new(Some(5), Some(u32::MAX)).to_valid_ym_pair().unwrap_err(),
        AppError::YearOutOfBounds
    );
}
