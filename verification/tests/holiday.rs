use holidays_jp::date_parse::parse_date_flexible;
use holidays_jp::holiday::{get_holiday, get_holidays_in_range, holiday_on, holidays_between};
use holidays_jp::{Date, HolidayError, HolidayMap};

/// The national holidays of 2023.
fn holidays_2023() -> HolidayMap {
    let days = [
        ("2023-01-01", "元日"),
        ("2023-01-02", "休日"),
        ("2023-01-09", "成人の日"),
        ("2023-02-11", "建国記念の日"),
        ("2023-02-23", "天皇誕生日"),
        ("2023-03-21", "春分の日"),
        ("2023-04-29", "昭和の日"),
        ("2023-05-03", "憲法記念日"),
        ("2023-05-04", "みどりの日"),
        ("2023-05-05", "こどもの日"),
        ("2023-07-17", "海の日"),
        ("2023-08-11", "山の日"),
        ("2023-09-18", "敬老の日"),
        ("2023-09-23", "秋分の日"),
        ("2023-10-09", "スポーツの日"),
        ("2023-11-03", "文化の日"),
        ("2023-11-23", "勤労感謝の日"),
    ];
    HolidayMap::from_entries(
        days.iter().map(|(key, name)| (key.to_string(), name.to_string())).collect(),
    )
}

#[test]
fn test_get_holiday() {
    let (ok, holiday) = get_holiday(&holidays_2023(), "20230101").unwrap();

    assert!(ok);
    assert_eq!(holiday.unwrap_or_default(), "元日");
}

#[test]
fn test_get_holiday_is_not_holiday() {
    let (ok, holiday) = get_holiday(&holidays_2023(), "2023/02/02").unwrap();

    assert!(!ok);
    assert_eq!(holiday.unwrap_or_default(), "");
}

#[test]
fn test_flexible_date_parsing() {
    let test_cases = vec![
        ("2023-01-01", "元日"),
        ("2023/01/01", "元日"),
        ("2023年1月1日", "元日"),
        ("2023.01.01", "元日"),
    ];

    for (date_str, expected_holiday) in test_cases {
        let (ok, holiday) = get_holiday(&holidays_2023(), date_str).unwrap();
        assert!(ok, "Failed to parse date: {}", date_str);
        assert_eq!(
            holiday.unwrap_or_default(),
            expected_holiday,
            "Wrong holiday for date: {}",
            date_str
        );
    }
}

#[test]
fn test_get_holidays_in_range() {
    let holidays = get_holidays_in_range(&holidays_2023(), "2023-01-01", "2023-01-03").unwrap();

    assert!(!holidays.is_empty());
    assert_eq!(holidays[0].0, "2023-01-01");
    assert_eq!(holidays[0].1, "元日");
}

#[test]
fn test_get_holidays_in_range_empty() {
    let holidays = get_holidays_in_range(&holidays_2023(), "2023-02-02", "2023-02-05").unwrap();

    assert!(holidays.is_empty());
}

#[test]
fn test_get_holidays_in_range_invalid_dates() {
    let result = get_holidays_in_range(&holidays_2023(), "invalid-date", "2023-01-01");
    assert!(result.is_err());

    let result = get_holidays_in_range(&holidays_2023(), "2023-12-31", "2023-01-01");
    assert!(result.is_err());
}

#[test]
fn test_parse_date_flexible() {
    let test_cases = vec![
        ("2023-01-01", "2023-01-01"),
        ("2023/01/01", "2023-01-01"),
        ("2023年1月1日", "2023-01-01"),
        ("20230101", "2023-01-01"),
    ];

    for (input, expected) in test_cases {
        let result = parse_date_flexible(input);
        assert!(result.is_ok(), "Failed to parse: {}", input);
        assert_eq!(result.unwrap().to_key(), expected);
    }
}

#[test]
fn range_errors_tell_bad_dates_from_bad_order() {
    let table = holidays_2023();
    assert_eq!(
        get_holidays_in_range(&table, "invalid-date", "2023-01-01").unwrap_err(),
        HolidayError::Parse
    );
    assert_eq!(
        get_holidays_in_range(&table, "2023-01-01", "tomorrow").unwrap_err(),
        HolidayError::Parse
    );
    assert_eq!(
        get_holidays_in_range(&table, "2023-12-31", "2023-01-01").unwrap_err(),
        HolidayError::InvalidRange
    );
    assert_eq!(get_holiday(&table, "next week").unwrap_err(), HolidayError::Parse);
}

#[test]
fn range_of_one_day_holds_that_day_or_nothing() {
    let table = holidays_2023();
    let on_holiday = get_holidays_in_range(&table, "2023-01-01", "2023-01-01").unwrap();
    assert_eq!(on_holiday, vec![("2023-01-01".to_string(), "元日".to_string())]);

    let on_workday = get_holidays_in_range(&table, "2023-01-04", "2023-01-04").unwrap();
    assert!(on_workday.is_empty());
}

#[test]
fn range_includes_both_bounds() {
    let found = get_holidays_in_range(&holidays_2023(), "2023-05-03", "2023-05-05").unwrap();
    assert_eq!(
        found,
        vec![
            ("2023-05-03".to_string(), "憲法記念日".to_string()),
            ("2023-05-04".to_string(), "みどりの日".to_string()),
            ("2023-05-05".to_string(), "こどもの日".to_string()),
        ]
    );
}

#[test]
fn range_is_ascending_without_duplicates_and_within_bounds() {
    // The table is filled in descending order, so the order of the answer
    // cannot come from the order of the table.
    let mut entries: Vec<(String, String)> = holidays_2023().to_entries();
    entries.reverse();
    let table = HolidayMap::from_entries(entries);

    let found = get_holidays_in_range(&table, "2023-01-02", "2023-11-03").unwrap();
    assert_eq!(found.len(), 15);
    assert_eq!(found.first().unwrap().0, "2023-01-02");
    assert_eq!(found.last().unwrap().0, "2023-11-03");
    for pair in found.windows(2) {
        assert!(pair[0].0 < pair[1].0);
    }
    for (key, name) in &found {
        assert!("2023-01-02" <= key.as_str() && key.as_str() <= "2023-11-03");
        assert_eq!(table.get(key), Some(name));
    }
}

#[test]
fn range_accepts_mixed_formats_and_crosses_years() {
    let mut table = holidays_2023();
    table.insert("2024-01-01".to_string(), "元日".to_string());
    let found = get_holidays_in_range(&table, "20231120", "01/08/2024").unwrap();
    assert_eq!(
        found,
        vec![
            ("2023-11-23".to_string(), "勤労感謝の日".to_string()),
            ("2024-01-01".to_string(), "元日".to_string()),
        ]
    );
}

#[test]
fn range_up_to_the_last_day_of_the_calendar_ends() {
    let mut table = HolidayMap::new();
    table.insert("+262142-12-31".to_string(), "last".to_string());
    let start = Date::new(262142, 12, 30).unwrap();
    let end = Date::new(262142, 12, 31).unwrap();
    assert_eq!(
        holidays_between(&table, start, end).unwrap(),
        vec![("+262142-12-31".to_string(), "last".to_string())]
    );
}

#[test]
fn ambiguous_date_is_read_month_first() {
    let date = parse_date_flexible("01/02/2023").unwrap();
    assert_eq!((date.year(), date.month(), date.day()), (2023, 1, 2));
    assert_eq!(date.to_key(), "2023-01-02");
}

#[test]
fn day_first_is_read_where_month_first_does_not_fit() {
    let date = parse_date_flexible("13/02/2023").unwrap();
    assert_eq!(date.to_key(), "2023-02-13");
}

#[test]
fn every_supported_format_is_read() {
    for text in [
        "20230503",
        "2023-05-03",
        "2023/05/03",
        "2023年05月03日",
        "05/03/2023",
        "2023.05.03",
    ] {
        assert_eq!(parse_date_flexible(text).unwrap().to_key(), "2023-05-03", "{}", text);
    }
    assert_eq!(parse_date_flexible("31/05/2023").unwrap().to_key(), "2023-05-31");
}

#[test]
fn days_that_do_not_exist_are_rejected() {
    assert_eq!(parse_date_flexible("2023-02-29").unwrap_err(), HolidayError::Parse);
    assert_eq!(parse_date_flexible("2023-13-01").unwrap_err(), HolidayError::Parse);
    assert_eq!(parse_date_flexible("").unwrap_err(), HolidayError::Parse);
    assert!(parse_date_flexible("2024-02-29").is_ok());
}

#[test]
fn point_query_on_a_loaded_table() {
    let table = HolidayMap::from_entries(vec![("2023-01-01".to_string(), "元日".to_string())]);
    assert_eq!(get_holiday(&table, "2023-01-01").unwrap(), (true, Some("元日".to_string())));
    assert_eq!(get_holiday(&table, "2023-01-02").unwrap(), (false, None));
    let day = Date::new(2023, 1, 1).unwrap();
    assert_eq!(holiday_on(&table, day), (true, Some("元日".to_string())));
}
