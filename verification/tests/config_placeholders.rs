use daily_ruster_man::app_config::{AppConfig, PlaceHolder};
use daily_ruster_man::daily_names::DailyName;
use daily_ruster_man::monthly_name::MonthlyName;
use daily_ruster_man::template::{PlaceholderMap, PlaceholderTemplate};
use daily_ruster_man::units_validated::ValidatedYear;
use daily_ruster_man::yearly_name::YearlyName;

fn placeholder(key: &str, value: &str) -> PlaceHolder {
    PlaceHolder::new(key.to_string(), value.to_string(), None)
}

fn placeholder_with_command_flag(key: &str, value: &str, is_command: bool) -> PlaceHolder {
    PlaceHolder::new(key.to_string(), value.to_string(), Some(is_command))
}

fn config_with(placeholders: Vec<PlaceHolder>) -> AppConfig {
    AppConfig::new(
        None,
        None,
        None,
        None,
        Some(placeholders),
        None,
        String::new(),
    )
}

fn expect_direct(map: &PlaceholderMap, key: &str, expected: &str) {
    match map.find_value(key) {
        Some(PlaceholderTemplate::DirectValue(text)) => assert_eq!(text, expected, "for key {key}"),
        other => panic!("expected direct value for key {key}, got {other:?}"),
    }
}

fn expect_command(map: &PlaceholderMap, key: &str, expected_command: &str) {
    match map.find_value(key) {
        Some(PlaceholderTemplate::Commmand(cmd)) => {
            assert_eq!(cmd.command(), expected_command, "for key {key}")
        }
        other => panic!("expected command for key {key}, got {other:?}"),
    }
}

#[test]
fn should_resolve_placeholders_with_daily() {
    let config = config_with(vec![
        placeholder("hello", "world"),
        placeholder_with_command_flag("no_command", "pls_no_execute", false),
        placeholder_with_command_flag("command", "echo hello", true),
        placeholder("day", "{{DAY_JOURNAL}}"),
        placeholder("month", "{{MONTH_JOURNAL}}"),
        placeholder("year", "{{YEAR_JOURNAL}}"),
    ]);

    let daily = DailyName::new(2000, 5, 15, "md").unwrap();
    let actual = config.create_template_placeholder_for(&daily);

    assert_eq!(actual.len(), 6);
    expect_direct(&actual, "hello", "world");
    expect_direct(&actual, "no_command", "pls_no_execute");
    expect_command(&actual, "command", "echo hello");
    expect_direct(&actual, "day", "15");
    expect_direct(&actual, "month", "5");
    expect_direct(&actual, "year", "2000");
}

#[test]
fn should_resolve_placeholders_with_monthly() {
    let config = config_with(vec![
        placeholder("month", "{{MONTH_JOURNAL}}"),
        placeholder("year", "{{YEAR_JOURNAL}}"),
    ]);

    let monthly = MonthlyName::from_ym(1980, 2, "md").unwrap();
    let actual = config.create_template_placeholder_for(&monthly);

    assert_eq!(actual.len(), 2);
    expect_direct(&actual, "month", "2");
    expect_direct(&actual, "year", "1980");
}

#[test]
fn should_resolve_placeholders_with_yearly() {
    let config = config_with(vec![
        placeholder("month", "{{MONTH_JOURNAL}}"),
        placeholder("year", "{{YEAR_JOURNAL}}"),
    ]);

    let yearly = YearlyName::new(ValidatedYear::try_from(412).unwrap());
    let actual = config.create_template_placeholder_for(&yearly);

    assert_eq!(actual.len(), 2);
    // A built-in the yearly journal does not know keeps its literal text,
    // markers included.
    expect_direct(&actual, "month", "{{MONTH_JOURNAL}}");
    expect_direct(&actual, "year", "412");
}

#[test]
fn unknown_builtin_keeps_markers_and_repeated_markers_strip() {
    let config = config_with(vec![
        placeholder("unknown", "{{NOT_A_BUILTIN}}"),
        placeholder("nested", "{{{{YEAR_JOURNAL}}}}"),
    ]);
    let daily = DailyName::new(2000, 5, 15, "md").unwrap();
    let actual = config.create_template_placeholder_for(&daily);

    expect_direct(&actual, "unknown", "{{NOT_A_BUILTIN}}");
    // Marker stripping removes repeated pairs, so the doubled markers still
    // resolve to the journal's year.
    expect_direct(&actual, "nested", "2000");
}

#[test]
fn repeated_key_takes_the_later_value() {
    let config = config_with(vec![
        placeholder("hello", "first"),
        placeholder("hello", "second"),
    ]);
    let daily = DailyName::new(2000, 5, 15, "md").unwrap();
    let actual = config.create_template_placeholder_for(&daily);

    assert_eq!(actual.len(), 1);
    expect_direct(&actual, "hello", "second");
}
