use holidays_jp::cache::{
    check_remote_etag, Action, CacheData, CacheMetadata, Download, ProbeResponse, RefreshPlan,
    Stage,
};
use holidays_jp::config::CacheStrategy;
use holidays_jp::timestamp::Timestamp;
use holidays_jp::{Config, HolidayCache, HolidayError, HolidayMap};

const NOW: Timestamp = Timestamp { secs: 1_700_000_000, nanos: 0 };

fn hours_ago(hours: i64) -> Timestamp {
    Timestamp { secs: NOW.secs - hours * 3600, nanos: 0 }
}

fn cache_with(strategy: CacheStrategy) -> HolidayCache {
    let mut config = Config::default();
    config.cache.strategy = strategy;
    HolidayCache::new(config)
}

fn metadata(updated_hours_ago: i64, etag: Option<&str>, checked_hours_ago: Option<i64>) -> CacheMetadata {
    CacheMetadata {
        last_updated: hours_ago(updated_hours_ago),
        etag: etag.map(str::to_string),
        last_modified: None,
        last_etag_check: checked_hours_ago.map(hours_ago),
        source_url: "https://example.com/syukujitsu.csv".to_string(),
        cache_duration_hours: 168,
    }
}

fn snapshot(meta: CacheMetadata) -> CacheData {
    CacheData {
        metadata: meta,
        holidays: HolidayMap::from_entries(vec![("2023-01-01".to_string(), "元日".to_string())]),
    }
}

fn remote(etag: &str) -> Result<Option<String>, HolidayError> {
    Ok(Some(etag.to_string()))
}

fn table_csv() -> Vec<u8> {
    b"date,name\r\n2022/01/01,HOLIDAY!\r\n".to_vec()
}

#[test]
fn time_based_refreshes_a_copy_of_200_hours() {
    let cache = cache_with(CacheStrategy::TimeBased);
    let meta = metadata(200, None, None);
    assert_eq!(cache.get_cache_age_hours(&meta, NOW), 200);
    assert!(cache.should_refresh_time_based(&meta, NOW));
    assert!(cache.should_refresh_cache(&meta, NOW, &Ok(None)));
    assert_eq!(cache.plan_refresh(&meta, NOW), RefreshPlan::Refresh);
}

#[test]
fn time_based_keeps_a_copy_of_exactly_the_greatest_age() {
    let cache = cache_with(CacheStrategy::TimeBased);
    assert!(!cache.should_refresh_time_based(&metadata(168, None, None), NOW));
    assert!(!cache.should_refresh_time_based(&metadata(167, None, None), NOW));
    assert!(cache.should_refresh_time_based(&metadata(169, None, None), NOW));
    let almost = CacheMetadata {
        last_updated: Timestamp { secs: NOW.secs - 169 * 3600 + 1, nanos: 0 },
        ..metadata(0, None, None)
    };
    assert!(!cache.should_refresh_time_based(&almost, NOW));
}

#[test]
fn a_copy_from_the_future_is_not_too_old() {
    let cache = cache_with(CacheStrategy::TimeBased);
    let meta = metadata(-5, None, None);
    assert_eq!(cache.get_cache_age_hours(&meta, NOW), -5);
    assert!(!cache.should_refresh_time_based(&meta, NOW));
}

#[test]
fn always_and_never() {
    let old = metadata(100_000, Some("abc"), None);
    let fresh = metadata(0, Some("abc"), Some(0));
    for meta in [&old, &fresh] {
        let always = cache_with(CacheStrategy::AlwaysRefresh);
        assert!(always.should_refresh_cache(meta, NOW, &remote("abc")));
        assert_eq!(always.plan_refresh(meta, NOW), RefreshPlan::Refresh);
        let never = cache_with(CacheStrategy::NeverRefresh);
        assert!(!never.should_refresh_cache(meta, NOW, &remote("other")));
        assert_eq!(never.plan_refresh(meta, NOW), RefreshPlan::Keep);
    }
}

#[test]
fn same_question_same_answer() {
    for strategy in [CacheStrategy::NeverRefresh, CacheStrategy::TimeBased] {
        let cache = cache_with(strategy);
        for age in [0, 168, 169, 200] {
            let meta = metadata(age, Some("abc"), None);
            let first = cache.should_refresh_cache(&meta, NOW, &remote("abc"));
            let second = cache.should_refresh_cache(&meta, NOW, &Err(HolidayError::Network));
            assert_eq!(first, second);
            assert_ne!(cache.plan_refresh(&meta, NOW), RefreshPlan::Probe);
        }
    }
}

#[test]
fn etag_based_keeps_a_copy_with_the_same_etag() {
    let cache = cache_with(CacheStrategy::EtagBased);
    let meta = metadata(1, Some("abc"), None);
    assert_eq!(cache.plan_refresh(&meta, NOW), RefreshPlan::Probe);
    assert!(!cache.should_refresh_cache(&meta, NOW, &remote("abc")));
    assert!(!cache.should_refresh_etag_based(&meta, NOW, &remote("abc")));
}

#[test]
fn etag_based_refreshes_on_another_etag() {
    let cache = cache_with(CacheStrategy::EtagBased);
    let meta = metadata(1, Some("abc"), None);
    assert!(cache.should_refresh_cache(&meta, NOW, &remote("abd")));
    assert!(cache.should_refresh_cache(&meta, NOW, &remote("ABC")));
    assert!(cache.should_refresh_cache(&meta, NOW, &remote("abc ")));
    // An old copy with the same ETag is kept: the ETag decides, not the age.
    assert!(!cache.should_refresh_cache(&metadata(500, Some("abc"), None), NOW, &remote("abc")));
}

#[test]
fn etag_based_without_cached_etag_goes_by_age() {
    let cache = cache_with(CacheStrategy::EtagBased);
    assert_eq!(cache.plan_refresh(&metadata(1, None, None), NOW), RefreshPlan::Keep);
    assert_eq!(cache.plan_refresh(&metadata(200, None, None), NOW), RefreshPlan::Refresh);
    assert!(!cache.should_refresh_cache(&metadata(1, None, None), NOW, &remote("abc")));
    assert!(cache.should_refresh_cache(&metadata(200, None, None), NOW, &remote("abc")));
}

#[test]
fn failed_probe_falls_back_to_age() {
    let cache = cache_with(CacheStrategy::EtagBased);
    let max_age = cache.config().cache.max_age_hours as i64;
    let meta = metadata(max_age - 1, Some("abc"), None);
    assert!(!cache.should_refresh_cache(&meta, NOW, &Err(HolidayError::Network)));
    assert!(!cache.should_refresh_cache(&meta, NOW, &Ok(None)));
    let old = metadata(max_age + 1, Some("abc"), None);
    assert!(cache.should_refresh_cache(&old, NOW, &Err(HolidayError::Network)));
    assert!(cache.should_refresh_cache(&old, NOW, &Ok(None)));
}

#[test]
fn hybrid_forces_a_refresh_of_an_old_copy_without_a_probe() {
    let cache = cache_with(CacheStrategy::Hybrid);
    let meta = metadata(169, Some("abc"), None);
    assert_eq!(cache.plan_refresh(&meta, NOW), RefreshPlan::Refresh);
    assert!(cache.should_refresh_hybrid(&meta, NOW, &remote("abc")));
}

#[test]
fn hybrid_probes_when_the_interval_has_passed() {
    let cache = cache_with(CacheStrategy::Hybrid);
    let never_checked = metadata(10, Some("abc"), None);
    assert!(cache.should_check_etag(&never_checked, NOW));
    assert_eq!(cache.plan_refresh(&never_checked, NOW), RefreshPlan::Probe);

    let due = metadata(30, Some("abc"), Some(25));
    assert!(cache.should_check_etag(&due, NOW));
    assert_eq!(cache.plan_refresh(&due, NOW), RefreshPlan::Probe);
    assert!(cache.should_refresh_hybrid(&due, NOW, &remote("new")));
    assert!(!cache.should_refresh_hybrid(&due, NOW, &remote("abc")));
    assert!(!cache.should_refresh_hybrid(&due, NOW, &Err(HolidayError::Network)));

    let not_due = metadata(30, Some("abc"), Some(24));
    assert!(!cache.should_check_etag(&not_due, NOW));
    assert_eq!(cache.plan_refresh(&not_due, NOW), RefreshPlan::Keep);
    assert!(!cache.should_refresh_hybrid(&not_due, NOW, &remote("new")));
}

#[test]
fn status_outside_2xx_is_a_network_error() {
    let answer = |status: u16| Ok(ProbeResponse { status, etag: Some("abc".to_string()) });
    assert_eq!(check_remote_etag(answer(200)), remote("abc"));
    assert_eq!(check_remote_etag(answer(204)), remote("abc"));
    assert_eq!(check_remote_etag(answer(299)), remote("abc"));
    assert_eq!(check_remote_etag(answer(199)), Err(HolidayError::Network));
    assert_eq!(check_remote_etag(answer(300)), Err(HolidayError::Network));
    assert_eq!(check_remote_etag(answer(304)), Err(HolidayError::Network));
    assert_eq!(check_remote_etag(answer(404)), Err(HolidayError::Network));
    assert_eq!(check_remote_etag(answer(500)), Err(HolidayError::Network));
    assert_eq!(check_remote_etag(Ok(ProbeResponse { status: 200, etag: None })), Ok(None));
    assert_eq!(check_remote_etag(Err(HolidayError::Network)), Err(HolidayError::Network));
}

#[test]
fn start_loads_the_cache_unless_a_refresh_is_forced() {
    let cache = cache_with(CacheStrategy::Hybrid);
    assert!(matches!(cache.next_action(Stage::Start, NOW), Action::LoadCache));

    let mut config = Config::default();
    config.cache.force_refresh_on_startup = true;
    config.cache.strategy = CacheStrategy::NeverRefresh;
    let forced = HolidayCache::new(config);
    assert!(matches!(forced.next_action(Stage::Start, NOW), Action::Download));
}

#[test]
fn unreadable_cache_leads_to_a_download() {
    let cache = cache_with(CacheStrategy::NeverRefresh);
    let stage = Stage::Loaded(Err(HolidayError::CacheIo));
    assert!(matches!(cache.next_action(stage, NOW), Action::Download));
}

#[test]
fn fresh_cache_is_used() {
    let cache = cache_with(CacheStrategy::TimeBased);
    let stage = Stage::Loaded(Ok(snapshot(metadata(1, None, None))));
    match cache.next_action(stage, NOW) {
        Action::Use(table) => assert_eq!(table.get("2023-01-01").unwrap(), "元日"),
        other => panic!("{:?}", other),
    }
}

#[test]
fn stale_cache_is_downloaded_again() {
    let cache = cache_with(CacheStrategy::TimeBased);
    let stage = Stage::Loaded(Ok(snapshot(metadata(200, None, None))));
    assert!(matches!(cache.next_action(stage, NOW), Action::Download));
}

#[test]
fn probe_is_asked_for_with_the_snapshot() {
    let cache = cache_with(CacheStrategy::EtagBased);
    let stage = Stage::Loaded(Ok(snapshot(metadata(1, Some("abc"), None))));
    match cache.next_action(stage, NOW) {
        Action::Probe(kept) => {
            assert_eq!(kept.metadata.etag.as_deref(), Some("abc"));
            assert!(kept.holidays.contains_key("2023-01-01"));
        }
        other => panic!("{:?}", other),
    }
}

#[test]
fn answered_probe_that_keeps_the_copy_records_the_look() {
    let cache = cache_with(CacheStrategy::Hybrid);
    let before = metadata(30, Some("abc"), Some(25));
    let stage = Stage::Probed {
        snapshot: snapshot(before),
        response: Ok(ProbeResponse { status: 200, etag: Some("abc".to_string()) }),
    };
    match cache.next_action(stage, NOW) {
        Action::Store(stored) => {
            assert_eq!(stored.metadata.last_etag_check, Some(NOW));
            assert_eq!(stored.metadata.last_updated, hours_ago(30));
            assert_eq!(stored.metadata.etag.as_deref(), Some("abc"));
            assert_eq!(stored.metadata.cache_duration_hours, 168);
            assert_eq!(stored.metadata.source_url, "https://example.com/syukujitsu.csv");
            assert_eq!(stored.holidays.to_entries(), snapshot(metadata(0, None, None)).holidays.to_entries());
        }
        other => panic!("{:?}", other),
    }
}

#[test]
fn failed_probe_uses_the_copy_and_stores_nothing() {
    let cache = cache_with(CacheStrategy::EtagBased);
    for response in [Err(HolidayError::Network), Ok(ProbeResponse { status: 503, etag: None })] {
        let stage = Stage::Probed { snapshot: snapshot(metadata(167, Some("abc"), None)), response };
        match cache.next_action(stage, NOW) {
            Action::Use(table) => assert!(table.contains_key("2023-01-01")),
            other => panic!("{:?}", other),
        }
    }
}

#[test]
fn probe_with_another_etag_leads_to_a_download() {
    let cache = cache_with(CacheStrategy::EtagBased);
    let stage = Stage::Probed {
        snapshot: snapshot(metadata(1, Some("abc"), None)),
        response: Ok(ProbeResponse { status: 200, etag: Some("xyz".to_string()) }),
    };
    assert!(matches!(cache.next_action(stage, NOW), Action::Download));
}

#[test]
fn download_becomes_a_snapshot_to_store() {
    let cache = cache_with(CacheStrategy::Hybrid);
    let download = Download {
        status: 200,
        body: table_csv(),
        etag: Some("\"v2\"".to_string()),
        last_modified: Some("Wed, 01 Feb 2023 00:00:00 GMT".to_string()),
    };
    match cache.next_action(Stage::Fetched(Ok(download)), NOW) {
        Action::Store(stored) => {
            assert_eq!(stored.metadata.last_updated, NOW);
            assert_eq!(stored.metadata.last_etag_check, Some(NOW));
            assert_eq!(stored.metadata.etag.as_deref(), Some("\"v2\""));
            assert_eq!(
                stored.metadata.last_modified.as_deref(),
                Some("Wed, 01 Feb 2023 00:00:00 GMT")
            );
            assert_eq!(stored.metadata.source_url, cache.config().holiday_data.source_url);
            assert_eq!(stored.metadata.cache_duration_hours, 168);
            assert_eq!(
                stored.holidays.to_entries(),
                vec![("2022-01-01".to_string(), "HOLIDAY!".to_string())]
            );
        }
        other => panic!("{:?}", other),
    }
}

#[test]
fn failed_download_is_surfaced() {
    let cache = cache_with(CacheStrategy::Hybrid);
    let failed = cache.next_action(Stage::Fetched(Err(HolidayError::Network)), NOW);
    assert!(matches!(failed, Action::Fail(HolidayError::Network)));

    let not_found = Download { status: 404, body: table_csv(), etag: None, last_modified: None };
    let refused = cache.next_action(Stage::Fetched(Ok(not_found)), NOW);
    assert!(matches!(refused, Action::Fail(HolidayError::Network)));
    assert_eq!(
        cache
            .download_and_cache(
                Download { status: 500, body: Vec::new(), etag: None, last_modified: None },
                NOW
            )
            .unwrap_err(),
        HolidayError::Network
    );

    // 0x81 opens a two-byte Shift_JIS character; 0x20 cannot close it.
    let garbled = Download { status: 200, body: vec![0x81, 0x20], etag: None, last_modified: None };
    let unreadable = cache.next_action(Stage::Fetched(Ok(garbled)), NOW);
    assert!(matches!(unreadable, Action::Fail(HolidayError::Parse)));
}

#[test]
fn stored_snapshot_is_used_and_a_failed_write_is_surfaced() {
    let cache = cache_with(CacheStrategy::Hybrid);
    let written = Stage::Stored { snapshot: snapshot(metadata(0, None, Some(0))), outcome: Ok(()) };
    match cache.next_action(written, NOW) {
        Action::Use(table) => assert!(table.contains_key("2023-01-01")),
        other => panic!("{:?}", other),
    }
    let failed = Stage::Stored {
        snapshot: snapshot(metadata(0, None, Some(0))),
        outcome: Err(HolidayError::CacheIo),
    };
    assert!(matches!(cache.next_action(failed, NOW), Action::Fail(HolidayError::CacheIo)));
}

#[test]
fn get_holidays_goes_by_the_clock() {
    let now = chrono::Utc::now();
    let at = |hours: i64| Timestamp { secs: now.timestamp() - hours * 3600, nanos: 0 };
    let cache = cache_with(CacheStrategy::TimeBased);

    let mut old = metadata(0, None, None);
    old.last_updated = at(200);
    assert!(matches!(cache.get_holidays(Stage::Loaded(Ok(snapshot(old)))), Action::Download));

    let mut fresh = metadata(0, None, None);
    fresh.last_updated = at(1);
    assert!(matches!(cache.get_holidays(Stage::Loaded(Ok(snapshot(fresh)))), Action::Use(_)));

    match cache.get_holidays(Stage::Fetched(Ok(Download {
        status: 200,
        body: table_csv(),
        etag: None,
        last_modified: None,
    }))) {
        Action::Store(stored) => {
            let taken = stored.metadata.last_updated;
            assert!(now.timestamp() <= taken.secs && taken.secs <= now.timestamp() + 60);
            assert_eq!(stored.metadata.last_etag_check, Some(taken));
        }
        other => panic!("{:?}", other),
    }
}

#[test]
fn a_whole_run_from_start_to_table() {
    let cache = cache_with(CacheStrategy::Hybrid);
    let mut stage = Stage::Start;
    let mut steps = Vec::new();
    let table = loop {
        match cache.next_action(stage, NOW) {
            Action::LoadCache => {
                steps.push("load");
                stage = Stage::Loaded(Err(HolidayError::CacheIo));
            }
            Action::Download => {
                steps.push("download");
                stage = Stage::Fetched(Ok(Download {
                    status: 200,
                    body: table_csv(),
                    etag: Some("abc".to_string()),
                    last_modified: None,
                }));
            }
            Action::Store(snapshot) => {
                steps.push("store");
                stage = Stage::Stored { snapshot, outcome: Ok(()) };
            }
            Action::Probe(snapshot) => {
                steps.push("probe");
                stage = Stage::Probed { snapshot, response: Err(HolidayError::Network) };
            }
            Action::Use(table) => break table,
            Action::Fail(e) => panic!("{:?}", e),
        }
    };
    assert_eq!(steps, vec!["load", "download", "store"]);
    assert_eq!(table.get("2022-01-01").unwrap(), "HOLIDAY!");
}
