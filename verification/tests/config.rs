use holidays_jp::config::{CacheStrategy, StoredConfig};
use holidays_jp::constants::{
    DEFAULT_CACHE_FILE, DEFAULT_SOURCE_URL, DOWNLOAD_TIMEOUT_SECS, PROBE_TIMEOUT_SECS,
};
use holidays_jp::{Config, HolidayError};

fn stored(strategy: &str, max_age_hours: i64, etag_check_interval_hours: i64) -> StoredConfig {
    StoredConfig {
        source_url: "https://example.com/table.csv".to_string(),
        cache_file: "/tmp/holidays.json".to_string(),
        strategy: strategy.to_string(),
        max_age_hours,
        etag_check_interval_hours,
        force_refresh_on_startup: true,
    }
}

#[test]
fn default_configuration() {
    let config = Config::default();
    assert_eq!(config.holiday_data.source_url, DEFAULT_SOURCE_URL);
    assert_eq!(config.holiday_data.source_url, "https://www8.cao.go.jp/chosei/shukujitsu/syukujitsu.csv");
    assert_eq!(config.holiday_data.cache_file, DEFAULT_CACHE_FILE);
    assert_eq!(config.holiday_data.cache_file, "./data/holidays.json");
    assert_eq!(config.cache.strategy, CacheStrategy::Hybrid);
    assert_eq!(config.cache.max_age_hours, 168);
    assert_eq!(config.cache.etag_check_interval_hours, 24);
    assert!(!config.cache.force_refresh_on_startup);
}

#[test]
fn load_without_a_file_gives_the_default() {
    let config = Config::load(None).unwrap();
    let default = Config::default();
    assert_eq!(config.holiday_data.source_url, default.holiday_data.source_url);
    assert_eq!(config.holiday_data.cache_file, default.holiday_data.cache_file);
    assert_eq!(config.cache, default.cache);
}

#[test]
fn load_takes_the_values_of_the_file() {
    let config = Config::load(Some(stored("EtagBased", 12, 0))).unwrap();
    assert_eq!(config.holiday_data.source_url, "https://example.com/table.csv");
    assert_eq!(config.holiday_data.cache_file, "/tmp/holidays.json");
    assert_eq!(config.cache.strategy, CacheStrategy::EtagBased);
    assert_eq!(config.cache.max_age_hours, 12);
    assert_eq!(config.cache.etag_check_interval_hours, 0);
    assert!(config.cache.force_refresh_on_startup);
}

#[test]
fn load_rejects_unknown_strategies_and_negative_hours() {
    assert_eq!(Config::load(Some(stored("Sometimes", 1, 1))).unwrap_err(), HolidayError::Config);
    assert_eq!(Config::load(Some(stored("hybrid", 1, 1))).unwrap_err(), HolidayError::Config);
    assert_eq!(Config::load(Some(stored("", 1, 1))).unwrap_err(), HolidayError::Config);
    assert_eq!(Config::load(Some(stored("Hybrid", -1, 1))).unwrap_err(), HolidayError::Config);
    assert_eq!(Config::load(Some(stored("Hybrid", 1, -1))).unwrap_err(), HolidayError::Config);
    assert!(Config::load(Some(stored("Hybrid", 0, i64::MAX))).is_ok());
}

#[test]
fn strategies_by_name() {
    let all = [
        (CacheStrategy::TimeBased, "TimeBased"),
        (CacheStrategy::EtagBased, "EtagBased"),
        (CacheStrategy::Hybrid, "Hybrid"),
        (CacheStrategy::AlwaysRefresh, "AlwaysRefresh"),
        (CacheStrategy::NeverRefresh, "NeverRefresh"),
    ];
    for (strategy, name) in all {
        assert_eq!(strategy.name(), name);
        assert_eq!(CacheStrategy::from_name(name), Ok(strategy));
    }
    assert_eq!(CacheStrategy::from_name("timebased"), Err(HolidayError::Config));
    assert_eq!(CacheStrategy::from_name("TimeBased "), Err(HolidayError::Config));
}

#[test]
fn stored_configuration_round_trip() {
    let mut config = Config::default();
    config.cache.strategy = CacheStrategy::NeverRefresh;
    config.cache.max_age_hours = 5;
    config.cache.force_refresh_on_startup = true;
    config.holiday_data.cache_file = "elsewhere.json".to_string();
    let written = config.to_stored();
    assert_eq!(written.strategy, "NeverRefresh");
    assert_eq!(written.max_age_hours, 5);
    let read = Config::load(Some(written)).unwrap();
    assert_eq!(read.cache, config.cache);
    assert_eq!(read.holiday_data.cache_file, "elsewhere.json");
    assert_eq!(read.holiday_data.source_url, config.holiday_data.source_url);

    config.cache.max_age_hours = u64::MAX;
    assert_eq!(config.to_stored().max_age_hours, i64::MAX);
}

#[test]
fn clone_keeps_every_value() {
    let mut config = Config::default();
    config.cache.max_age_hours = 7;
    let copy = config.clone();
    assert_eq!(copy.cache, config.cache);
    assert_eq!(copy.holiday_data.source_url, config.holiday_data.source_url);
    assert_eq!(copy.holiday_data.cache_file, config.holiday_data.cache_file);
}

#[test]
fn probe_is_given_less_time_than_a_download() {
    assert_eq!(DOWNLOAD_TIMEOUT_SECS, 30);
    assert_eq!(PROBE_TIMEOUT_SECS, 10);
    assert!(PROBE_TIMEOUT_SECS < DOWNLOAD_TIMEOUT_SECS);
}

#[test]
fn every_error_has_its_own_message() {
    let all = [
        HolidayError::Network,
        HolidayError::Parse,
        HolidayError::CacheIo,
        HolidayError::Config,
        HolidayError::NotInitialized,
        HolidayError::InvalidRange,
    ];
    for (i, a) in all.iter().enumerate() {
        assert!(!a.message().is_empty());
        for b in &all[..i] {
            assert_ne!(a.message(), b.message());
        }
    }
    assert_eq!(HolidayError::NotInitialized.message(), "Holiday service not initialized");
    assert_eq!(
        HolidayError::InvalidRange.message(),
        "Start date must be before or equal to end date"
    );
}
