use holidays_jp::date_parse::parse_date_flexible;
use holidays_jp::{Config, HolidayError, HolidayMap, HolidayService};

fn table() -> HolidayMap {
    HolidayMap::from_entries(vec![
        ("2023-01-01".to_string(), "元日".to_string()),
        ("2023-01-02".to_string(), "休日".to_string()),
        ("2023-01-09".to_string(), "成人の日".to_string()),
    ])
}

#[test]
fn test_holiday_service_initialization() {
    let config = Config::default();
    let service = HolidayService::new(config);

    assert!(!service.is_initialized());
}

#[test]
fn queries_before_initialization_are_errors() {
    let service = HolidayService::new(Config::default());
    assert_eq!(service.get_holiday("2023-01-01").unwrap_err(), HolidayError::NotInitialized);
    assert_eq!(
        service.get_holidays_in_range("2023-01-01", "2023-01-03").unwrap_err(),
        HolidayError::NotInitialized
    );
    // Not being initialized is reported before anything is said of the dates.
    assert_eq!(service.get_holiday("nonsense").unwrap_err(), HolidayError::NotInitialized);
    assert_eq!(
        service.get_holidays_in_range("2023-12-31", "2023-01-01").unwrap_err(),
        HolidayError::NotInitialized
    );
}

#[test]
fn initialized_service_answers_queries() {
    let mut service = HolidayService::new(Config::default());
    assert_eq!(service.initialize(Ok(table())), Ok(()));
    assert!(service.is_initialized());
    assert_eq!(service.get_holiday("2023-01-01").unwrap(), (true, Some("元日".to_string())));
    assert_eq!(service.get_holiday("2023年1月9日").unwrap(), (true, Some("成人の日".to_string())));
    assert_eq!(service.get_holiday("2023-01-03").unwrap(), (false, None));
    assert_eq!(service.get_holiday("first of May").unwrap_err(), HolidayError::Parse);
    assert_eq!(
        service.get_holidays_in_range("2023-01-02", "2023/01/09").unwrap(),
        vec![
            ("2023-01-02".to_string(), "休日".to_string()),
            ("2023-01-09".to_string(), "成人の日".to_string()),
        ]
    );
    assert_eq!(
        service.get_holidays_in_range("2023-01-09", "2023-01-02").unwrap_err(),
        HolidayError::InvalidRange
    );
}

#[test]
fn failed_initialization_leaves_the_service_as_it_was() {
    let mut service = HolidayService::new(Config::default());
    assert_eq!(service.initialize(Err(HolidayError::Network)), Err(HolidayError::Network));
    assert!(!service.is_initialized());

    service.initialize(Ok(table())).unwrap();
    assert_eq!(service.initialize(Err(HolidayError::Parse)), Err(HolidayError::Parse));
    assert!(service.is_initialized());
    assert_eq!(service.get_holiday("2023-01-01").unwrap(), (true, Some("元日".to_string())));
}

#[test]
fn a_new_table_replaces_the_old_one_as_a_whole() {
    let mut service = HolidayService::new(Config::default());
    service.initialize(Ok(table())).unwrap();
    let newer = HolidayMap::from_entries(vec![("2024-01-01".to_string(), "元日".to_string())]);
    service.initialize(Ok(newer)).unwrap();
    assert_eq!(service.get_holiday("2023-01-01").unwrap(), (false, None));
    assert_eq!(service.get_holiday("2024-01-01").unwrap(), (true, Some("元日".to_string())));
}

#[test]
fn service_keeps_its_configuration() {
    let mut config = Config::default();
    config.cache.max_age_hours = 3;
    config.holiday_data.cache_file = "here.json".to_string();
    let service = HolidayService::new(config);
    assert_eq!(service.cache().config().cache.max_age_hours, 3);
    assert_eq!(service.cache().config().holiday_data.cache_file, "here.json");
}

#[test]
fn today_is_a_date_in_compact_form() {
    let today = HolidayService::get_today_date();
    assert_eq!(today.len(), 8);
    assert!(today.chars().all(|c| c.is_ascii_digit()));
    let date = parse_date_flexible(&today).unwrap();
    assert_eq!(date.to_compact(), today);
    let utc = chrono::Utc::now().date_naive();
    let days = chrono::NaiveDate::from_ymd_opt(date.year(), date.month(), date.day())
        .unwrap()
        .signed_duration_since(utc)
        .num_days();
    assert!((-1..=1).contains(&days));
}
