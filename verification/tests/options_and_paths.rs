use daily_ruster_man::app_args::{AppCommands, CliArgs, DebugArgs, GenerellArgs};
use daily_ruster_man::app_config::{AppConfig, PatchFromConfig, ResolvedTemplatePath};
use daily_ruster_man::app_options::{get_from_cli_env, AppOptions};
use daily_ruster_man::edit_argument::{EditCommonArgs, DEFAUTL_EDITOR};
use daily_ruster_man::edit_command::EditCommand;
use daily_ruster_man::errors::AppError;
use daily_ruster_man::list_command::ListCommand;
use daily_ruster_man::units_validated::ValidatedDate;
use daily_ruster_man::delete_actions::{decide_deletion, DeletionStep};
use daily_ruster_man::data_models::{FilterParamsYmD, PastFuture};
use daily_ruster_man::units_validated::{ValidatedMonth, ValidatedYear};
use daily_ruster_man::month_list_command::ListByMonthCommand;
use daily_ruster_man::find_by::FindByMonthInYear;

fn empty_config_with_editor(editor: Option<&str>) -> AppConfig {
    AppConfig::new(
        None,
        None,
        None,
        None,
        None,
        editor.map(|e| e.to_string()),
        "/conf/root".to_string(),
    )
}

fn options_without_config() -> AppOptions {
    let args = CliArgs::new(
        None,
        GenerellArgs::new(false, None, None),
        AppCommands::YearList,
    );
    AppOptions::new(&args)
}

#[test]
fn resolves_editor_from_cli_config_then_default() {
    let mut with_config = options_without_config();
    with_config.attach_config(empty_config_with_editor(Some("helix")));

    let from_cli = EditCommonArgs::new(Some("nano".to_string()), false);
    assert_eq!(from_cli.resolve_editor(&with_config), "nano");

    let from_config = EditCommonArgs::new(None, false);
    assert_eq!(from_config.resolve_editor(&with_config), "helix");

    let mut no_editor_anywhere = options_without_config();
    no_editor_anywhere.attach_config(empty_config_with_editor(None));
    assert_eq!(from_config.resolve_editor(&no_editor_anywhere), DEFAUTL_EDITOR);

    assert_eq!(from_config.resolve_editor(&options_without_config()), DEFAUTL_EDITOR);
}

#[test]
fn debug_flags_decide_data_folders_and_dry_runs() {
    let release_like = options_without_config();
    assert!(release_like.use_prod_local_share());
    assert!(!release_like.run_editor_dry());

    let dev_args = CliArgs::new(
        Some(DebugArgs::new(false, true)),
        GenerellArgs::new(true, None, None),
        AppCommands::YearList,
    );
    let dev_options = AppOptions::new(&dev_args);
    assert!(!dev_options.use_prod_local_share());
    assert!(dev_options.run_editor_dry());
}

#[test]
fn cli_value_wins_over_environment() {
    let cli = "cli_val".to_string();
    assert_eq!(
        get_from_cli_env(Some(&cli), Some("env_val".to_string())),
        Some("cli_val".to_string())
    );
    assert_eq!(
        get_from_cli_env(None, Some("env_val".to_string())),
        Some("env_val".to_string())
    );
    assert_eq!(get_from_cli_env(Some(&cli), None), Some("cli_val".to_string()));
    assert_eq!(get_from_cli_env(None, None), None);
}

#[test]
fn template_paths_resolve_against_the_config_folder() {
    let config = empty_config_with_editor(None);

    let marked = PatchFromConfig::new(Some("+templates/daily.md".to_string()));
    match marked.try_to_resolved_path(&config) {
        Some(ResolvedTemplatePath::InConfigFolder { root, relative }) => {
            assert_eq!(root, "/conf/root");
            assert_eq!(relative, "templates/daily.md");
        }
        other => panic!("expected a config-folder path, got another shape: {}", other.is_some()),
    }

    let plain = PatchFromConfig::new(Some("~/templates/daily.md".to_string()));
    match plain.try_to_resolved_path(&config) {
        Some(ResolvedTemplatePath::Expandable(raw)) => {
            assert_eq!(raw, "~/templates/daily.md");
        }
        other => panic!("expected an expandable path, got another shape: {}", other.is_some()),
    }

    assert!(PatchFromConfig::new(None).try_to_resolved_path(&config).is_none());
}

#[test]
fn edit_command_resolves_dates() {
    fn resolve(
        range_or_year: Option<i32>,
        day_of_year_or_month: Option<u32>,
        day_of_month: Option<u32>,
        given: (u32, u32, u32),
    ) -> (u32, u32, u32) {
        let command = EditCommand::new(range_or_year, day_of_year_or_month, day_of_month);
        let now = ValidatedDate::from_ymd(given.0, given.1, given.2).unwrap();
        let actual = command.to_advance_valid_date(now).expect("should resolve to a date");
        (actual.year(), actual.month(), actual.day())
    }

    assert_eq!(resolve(Some(2), None, None, (1999, 7, 14)), (1999, 7, 16));
    assert_eq!(resolve(Some(-3), None, None, (1662, 6, 2)), (1662, 5, 30));
    assert_eq!(resolve(Some(2222), Some(42), None, (1, 1, 1)), (2222, 2, 11));
    assert_eq!(resolve(Some(2003), Some(8), Some(12), (1, 1, 1)), (2003, 8, 12));
    assert_eq!(resolve(None, None, None, (2020, 2, 29)), (2020, 2, 29));
}

#[test]
fn edit_command_rejects_negative_years() {
    let now = ValidatedDate::from_ymd(2000, 1, 1).unwrap();
    assert_eq!(
        EditCommand::new(Some(-1), Some(42), None).to_advance_valid_date(now).unwrap_err(),
        AppError::NegativeYear
    );
    assert_eq!(
        EditCommand::new(Some(-1), Some(1), Some(2)).to_advance_valid_date(now).unwrap_err(),
        AppError::NegativeYear
    );
}

#[test]
fn edit_command_resolves_today() {
    let today = EditCommand::default().to_advance_now().expect("clock date should resolve");
    assert!(today.month() >= 1 && today.month() <= 12);
    assert!(today.day() >= 1 && today.day() <= 31);
}

#[test]
fn list_command_validates_filter_fields() {
    assert!(ListCommand::new(Some(2013), Some(8), Some(12)).to_date_filter().is_ok());
    assert_eq!(
        ListCommand::new(None, Some(13), None).to_date_filter().unwrap_err(),
        AppError::MonthOutOfBounds
    );
    assert_eq!(
        ListCommand::new(None, None, Some(32)).to_date_filter().unwrap_err(),
        AppError::DayOutOfBounds
    );
}

#[test]
fn month_list_command_builds_filters() {

    assert!(matches!(
        ListByMonthCommand::new(None, None).create_find_month_in_year().unwrap(),
        FindByMonthInYear::All
    ));
    assert!(matches!(
        ListByMonthCommand::new(Some(1970), None).create_find_month_in_year().unwrap(),
        FindByMonthInYear::InCurrentYear(year) if year == ValidatedYear::try_from(1970).unwrap()
    ));
    assert!(matches!(
        ListByMonthCommand::new(Some(1970), Some(2)).create_find_month_in_year().unwrap(),
        FindByMonthInYear::MonthYear { month, year }
            if month == ValidatedMonth::try_from(2).unwrap()
            && year == ValidatedYear::try_from(1970).unwrap()
    ));
}

#[test]
fn raw_filter_params_check_their_bounds() {

    assert!(FilterParamsYmD::new(Some(2000), Some(2), Some(29)).is_ok());
    assert!(FilterParamsYmD::new(Some(2023), Some(2), Some(29)).is_err());
    assert!(FilterParamsYmD::new(None, Some(13), None).is_err());
    assert!(FilterParamsYmD::new(None, None, Some(0)).is_err());
    assert!(FilterParamsYmD::new(Some(u32::MAX), None, None).is_ok());

    assert!(matches!(PastFuture::new(-4), PastFuture::Past(4)));
    assert!(matches!(PastFuture::new(7), PastFuture::Future(7)));
}

#[test]
fn deletion_steps_follow_findings_and_answers() {

    assert_eq!(decide_deletion(false, false, false, None), DeletionStep::ReportNothingFound);
    assert_eq!(decide_deletion(true, false, true, None), DeletionStep::FailOnNonFile);
    assert_eq!(decide_deletion(true, true, true, None), DeletionStep::RemoveFile);
    assert_eq!(decide_deletion(true, true, false, None), DeletionStep::AskForConfirmation);
    assert_eq!(decide_deletion(true, true, false, Some(true)), DeletionStep::RemoveFile);
    assert_eq!(decide_deletion(true, true, false, Some(false)), DeletionStep::ReportCancelled);
}
