use daily_ruster_man::daily_names::DailyName;
use daily_ruster_man::date_filtering::{
    filter_dailies_by_ymd, filter_monthly_by_ym, strip_expect_file_name,
};
use daily_ruster_man::find_by::{FindByMonthInYear, FindByYearMonthDay};
use daily_ruster_man::list_queries::{
    fetch_all_daily_names, fetch_all_monthly_names, fetch_yearly_names,
};
use daily_ruster_man::monthly_name::MonthlyName;

fn create_daily_name_from(y: u32, m: u32, d: u32) -> DailyName {
    DailyName::new(y, m, d, "does_not_matter").expect("y, m, and d do lead to valid daily name")
}

fn assert_filter_is_correct(
    given: Vec<DailyName>,
    expected: Vec<DailyName>,
    filtering: FindByYearMonthDay,
) {
    let actual = filter_dailies_by_ymd(given, &filtering);
    assert_eq!(expected, actual);
}

#[test]
fn test_daily_filtering_test_strip_expect_file_name() {
    let given = vec![
        "/home/bla/text.txt".to_string(),
        "/home/bla/aaa.a".to_string(),
        "/home/bla/ssss.s".to_string(),
    ];

    let expected = vec!["text.txt", "aaa.a", "ssss.s"];

    let actual = strip_expect_file_name(&given);

    assert_eq!(expected, actual);
}

#[test]
fn test_daily_filtering_should_filter_by_ymd() {
    // Should match exactly one date
    assert_filter_is_correct(
        vec![
            create_daily_name_from(2001, 11, 21),
            create_daily_name_from(2000, 1, 1),
            create_daily_name_from(2000, 2, 3),
            create_daily_name_from(1980, 2, 13),
        ],
        vec![create_daily_name_from(2000, 1, 1)],
        FindByYearMonthDay::new(Some(2000), Some(1), Some(1)).unwrap(),
    );
    // Should match several with given year
    assert_filter_is_correct(
        vec![
            create_daily_name_from(2001, 8, 11),
            create_daily_name_from(2000, 1, 1),
            create_daily_name_from(1999, 1, 1),
            create_daily_name_from(1999, 2, 3),
            create_daily_name_from(1980, 4, 13),
        ],
        vec![
            create_daily_name_from(1999, 1, 1),
            create_daily_name_from(1999, 2, 3),
        ],
        FindByYearMonthDay::new(Some(1999), None, None).unwrap(),
    );
    // Should match several with given month
    assert_filter_is_correct(
        vec![
            create_daily_name_from(2001, 8, 11),
            create_daily_name_from(2000, 1, 1),
            create_daily_name_from(1999, 1, 2),
            create_daily_name_from(1999, 2, 3),
            create_daily_name_from(1980, 4, 13),
        ],
        vec![
            create_daily_name_from(2000, 1, 1),
            create_daily_name_from(1999, 1, 2),
        ],
        FindByYearMonthDay::new(None, Some(1), None).unwrap(),
    );
    // Should match one with given day
    assert_filter_is_correct(
        vec![
            create_daily_name_from(2001, 8, 11),
            create_daily_name_from(2000, 1, 1),
            create_daily_name_from(1999, 1, 2),
            create_daily_name_from(1999, 2, 3),
            create_daily_name_from(1980, 4, 13),
        ],
        vec![create_daily_name_from(2001, 8, 11)],
        FindByYearMonthDay::new(None, None, Some(11)).unwrap(),
    );
    // Should match with given month and year
    assert_filter_is_correct(
        vec![
            create_daily_name_from(2001, 8, 11),
            create_daily_name_from(2000, 4, 1),
            create_daily_name_from(1999, 4, 2),
            create_daily_name_from(1999, 4, 23),
            create_daily_name_from(1980, 4, 13),
        ],
        vec![
            create_daily_name_from(1999, 4, 2),
            create_daily_name_from(1999, 4, 23),
        ],
        FindByYearMonthDay::new(Some(1999), Some(4), None).unwrap(),
    );
    // Should match with given month and day
    assert_filter_is_correct(
        vec![
            create_daily_name_from(2001, 8, 11),
            create_daily_name_from(2000, 4, 1),
            create_daily_name_from(1999, 4, 2),
            create_daily_name_from(1999, 4, 12),
            create_daily_name_from(1980, 4, 12),
            create_daily_name_from(1978, 4, 12),
        ],
        vec![
            create_daily_name_from(1999, 4, 12),
            create_daily_name_from(1980, 4, 12),
            create_daily_name_from(1978, 4, 12),
        ],
        FindByYearMonthDay::new(None, Some(4), Some(12)).unwrap(),
    );
    // Should match with given year and day
    assert_filter_is_correct(
        vec![
            create_daily_name_from(2000, 8, 11),
            create_daily_name_from(2000, 7, 1),
            create_daily_name_from(1999, 4, 2),
            create_daily_name_from(1999, 4, 12),
            create_daily_name_from(1980, 4, 12),
            create_daily_name_from(1978, 4, 12),
        ],
        vec![create_daily_name_from(2000, 7, 1)],
        FindByYearMonthDay::new(Some(2000), None, Some(1)).unwrap(),
    );
}

#[test]
fn filter_with_all_empty_query_returns_input_unchanged() {
    let given = vec![
        create_daily_name_from(2001, 11, 21),
        create_daily_name_from(1980, 2, 13),
        create_daily_name_from(2000, 1, 1),
    ];
    let expected = vec![
        create_daily_name_from(2001, 11, 21),
        create_daily_name_from(1980, 2, 13),
        create_daily_name_from(2000, 1, 1),
    ];
    let all_none = FindByYearMonthDay::new(None, None, None).unwrap();
    assert_eq!(filter_dailies_by_ymd(given, &all_none), expected);
}

#[test]
fn filter_monthlies_by_year_and_exact_month() {
    let given = || {
        vec![
            MonthlyName::from_ym(2000, 8, "md").unwrap(),
            MonthlyName::from_ym(1999, 8, "md").unwrap(),
            MonthlyName::from_ym(2000, 1, "md").unwrap(),
        ]
    };
    let all = filter_monthly_by_ym(given(), &FindByMonthInYear::All);
    assert_eq!(all.len(), 3);

    let in_year = filter_monthly_by_ym(
        given(),
        &FindByMonthInYear::InCurrentYear(
            daily_ruster_man::units_validated::ValidatedYear::try_from(2000).unwrap(),
        ),
    );
    assert_eq!(
        in_year,
        vec![
            MonthlyName::from_ym(2000, 8, "md").unwrap(),
            MonthlyName::from_ym(2000, 1, "md").unwrap(),
        ]
    );

    let exact = filter_monthly_by_ym(
        given(),
        &FindByMonthInYear::MonthYear {
            month: daily_ruster_man::units_validated::ValidatedMonth::try_from(8).unwrap(),
            year: daily_ruster_man::units_validated::ValidatedYear::try_from(1999).unwrap(),
        },
    );
    assert_eq!(exact, vec![MonthlyName::from_ym(1999, 8, "md").unwrap()]);
}

#[test]
fn lists_dailies_descending_by_date() {
    let names = vec![
        "2000_01_01_daily.md".to_string(),
        "1999_02_03_daily.md".to_string(),
        "1999_01_01_daily.md".to_string(),
    ];
    let all_none = FindByYearMonthDay::new(None, None, None).unwrap();
    let listed = fetch_all_daily_names(&names, &all_none);
    assert_eq!(listed, vec!["2000 01 01", "1999 02 03", "1999 01 01"]);
}

#[test]
fn listing_drops_unparseable_names_and_keeps_the_rest() {
    let names = vec![
        "notes.txt".to_string(),
        "2022_02_2_daily.md".to_string(),
        "2001_2_22_daily.md".to_string(),
    ];
    let all_none = FindByYearMonthDay::new(None, None, None).unwrap();
    let listed = fetch_all_daily_names(&names, &all_none);
    assert_eq!(listed, vec!["2022 02 02", "2001 02 22"]);
}

#[test]
fn lists_monthlies_and_yearlies_descending() {
    let names = vec![
        "1999_08_monthly.md".to_string(),
        "2000_01_monthly.md".to_string(),
        "0028_yearly.md".to_string(),
        "2023_yearly.md".to_string(),
    ];
    let monthlies = fetch_all_monthly_names(&names, &FindByMonthInYear::All);
    assert_eq!(monthlies, vec!["2000 01", "1999 08"]);

    let yearlies = fetch_yearly_names(&names);
    // Every name whose first field is a year parses as a yearly entry.
    assert_eq!(yearlies, vec!["2023", "2000", "1999", "0028"]);
}

#[test]
fn listing_is_stable_for_equal_dates() {
    let names = vec![
        "1999_8_monthly.md".to_string(),
        "1999_08_monthly.md".to_string(),
    ];
    let monthlies = fetch_all_monthly_names(&names, &FindByMonthInYear::All);
    assert_eq!(monthlies, vec!["1999 08", "1999 08"]);
}
