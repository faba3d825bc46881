//! Values that are fixed for the program and are no matter of configuration.

use vstd::prelude::*;

verus! {

/// The name of the application.
pub const APP_NAME: &'static str = "holidays_jp";

/// The version of the application.
pub const APP_VERSION: &'static str = "1.0";

/// The name of the configuration file.
pub const CONFIG_FILE_NAME: &'static str = "config.toml";

/// The address of the published holiday table, used where the configuration
/// names no other.
pub const DEFAULT_SOURCE_URL: &'static str =
    "https://www8.cao.go.jp/chosei/shukujitsu/syukujitsu.csv";

/// The path of the cache file, used where the configuration names no other.
pub const DEFAULT_CACHE_FILE: &'static str = "./data/holidays.json";

/// After how many hours a cached table is fetched again, where the
/// configuration does not say: seven days.
pub const DEFAULT_MAX_AGE_HOURS: u64 = 168;

/// After how many hours the remote ETag is looked at again, where the
/// configuration does not say: one day.
pub const DEFAULT_ETAG_CHECK_INTERVAL_HOURS: u64 = 24;

/// The time allowed for the download of the table, in seconds.
pub const DOWNLOAD_TIMEOUT_SECS: u64 = 30;

/// The time allowed for a probe of the remote ETag, in seconds. A probe asks
/// for headers only, so it is given less time than a download.
pub const PROBE_TIMEOUT_SECS: u64 = 10;

/// A probe is given strictly less time than a download.
pub proof fn lemma_probe_timeout_is_shorter()
    ensures
        PROBE_TIMEOUT_SECS < DOWNLOAD_TIMEOUT_SECS,
{
}

} // verus!
