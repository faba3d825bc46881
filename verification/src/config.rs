//! The configuration: where the holiday table comes from, where its cached
//! copy lies, and when the copy is fetched again.

use crate::constants::{
    DEFAULT_CACHE_FILE, DEFAULT_ETAG_CHECK_INTERVAL_HOURS, DEFAULT_MAX_AGE_HOURS,
    DEFAULT_SOURCE_URL,
};
use crate::error::HolidayError;
use vstd::prelude::*;

verus! {

/// When a cached holiday table is fetched again.
#[derive(Clone, Copy, Debug, PartialEq, Eq, Structural)]
pub enum CacheStrategy {
    /// When it is older than the configured number of hours.
    TimeBased,
    /// When the remote ETag differs from the cached one.
    EtagBased,
    /// When it is too old; and, at most once per configured interval, when
    /// the remote ETag differs from the cached one.
    Hybrid,
    /// Always.
    AlwaysRefresh,
    /// Never.
    NeverRefresh,
}

impl CacheStrategy {
    /// The name under which the configuration file knows the strategy.
    pub open spec fn name_text(self) -> Seq<char> {
        match self {
            CacheStrategy::TimeBased => "TimeBased"@,
            CacheStrategy::EtagBased => "EtagBased"@,
            CacheStrategy::Hybrid => "Hybrid"@,
            CacheStrategy::AlwaysRefresh => "AlwaysRefresh"@,
            CacheStrategy::NeverRefresh => "NeverRefresh"@,
        }
    }

    /// The strategy that `name` names, if it names one.
    pub open spec fn named(name: Seq<char>) -> Option<CacheStrategy> {
        if name == "TimeBased"@ {
            Some(CacheStrategy::TimeBased)
        } else if name == "EtagBased"@ {
            Some(CacheStrategy::EtagBased)
        } else if name == "Hybrid"@ {
            Some(CacheStrategy::Hybrid)
        } else if name == "AlwaysRefresh"@ {
            Some(CacheStrategy::AlwaysRefresh)
        } else if name == "NeverRefresh"@ {
            Some(CacheStrategy::NeverRefresh)
        } else {
            None
        }
    }

    /// The name under which the configuration file knows the strategy.
    pub fn name(&self) -> (name: &'static str)
        ensures
            name@ == self.name_text(),
    {
        match self {
            CacheStrategy::TimeBased => "TimeBased",
            CacheStrategy::EtagBased => "EtagBased",
            CacheStrategy::Hybrid => "Hybrid",
            CacheStrategy::AlwaysRefresh => "AlwaysRefresh",
            CacheStrategy::NeverRefresh => "NeverRefresh",
        }
    }

    /// The strategy that `name` names. Fails with [`HolidayError::Config`]
    /// where it names none.
    pub fn from_name(name: &str) -> (strategy: Result<CacheStrategy, HolidayError>)
        ensures
            match strategy {
                Ok(s) => CacheStrategy::named(name@) == Some(s),
                Err(e) => e == HolidayError::Config && CacheStrategy::named(name@) is None,
            },
    {
        let given = name.to_owned();
        if given == "TimeBased".to_owned() {
            Ok(CacheStrategy::TimeBased)
        } else if given == "EtagBased".to_owned() {
            Ok(CacheStrategy::EtagBased)
        } else if given == "Hybrid".to_owned() {
            Ok(CacheStrategy::Hybrid)
        } else if given == "AlwaysRefresh".to_owned() {
            Ok(CacheStrategy::AlwaysRefresh)
        } else if given == "NeverRefresh".to_owned() {
            Ok(CacheStrategy::NeverRefresh)
        } else {
            Err(HolidayError::Config)
        }
    }
}

/// Every strategy is found again under its own name.
pub proof fn lemma_strategy_name_round_trip(strategy: CacheStrategy)
    ensures
        CacheStrategy::named(strategy.name_text()) == Some(strategy),
{
    reveal_strlit("TimeBased");
    reveal_strlit("EtagBased");
    reveal_strlit("Hybrid");
    reveal_strlit("AlwaysRefresh");
    reveal_strlit("NeverRefresh");
    assert("TimeBased"@.len() == 9 && "TimeBased"@[0] == 'T');
    assert("EtagBased"@.len() == 9 && "EtagBased"@[0] == 'E');
    assert("Hybrid"@.len() == 6);
    assert("AlwaysRefresh"@.len() == 13);
    assert("NeverRefresh"@.len() == 12);
}

/// Where the holiday table comes from and where its cached copy lies.
#[derive(Debug)]
pub struct HolidayDataConfig {
    /// The address of the published table.
    pub source_url: String,
    /// The path of the cache file.
    pub cache_file: String,
}

/// What a [`HolidayDataConfig`] holds, as mathematical values.
pub struct HolidayDataConfigView {
    pub source_url: Seq<char>,
    pub cache_file: Seq<char>,
}

impl View for HolidayDataConfig {
    type V = HolidayDataConfigView;

    open spec fn view(&self) -> HolidayDataConfigView {
        HolidayDataConfigView { source_url: self.source_url@, cache_file: self.cache_file@ }
    }
}

impl Clone for HolidayDataConfig {
    fn clone(&self) -> (copy: Self)
        ensures
            copy@ == self@,
    {
        HolidayDataConfig {
            source_url: self.source_url.clone(),
            cache_file: self.cache_file.clone(),
        }
    }
}

/// When the cached copy of the holiday table is fetched again.
#[derive(Clone, Copy, Debug, PartialEq, Eq, Structural)]
pub struct CacheConfig {
    /// The rule that decides.
    pub strategy: CacheStrategy,
    /// The age in whole hours beyond which the copy is too old.
    pub max_age_hours: u64,
    /// The number of whole hours that have to pass before the remote ETag
    /// is looked at again.
    pub etag_check_interval_hours: u64,
    /// Fetch the table at startup, whatever the state of the copy.
    pub force_refresh_on_startup: bool,
}

/// The configuration.
#[derive(Debug)]
pub struct Config {
    pub holiday_data: HolidayDataConfig,
    pub cache: CacheConfig,
}

/// What a [`Config`] holds, as mathematical values.
pub struct ConfigView {
    pub holiday_data: HolidayDataConfigView,
    pub cache: CacheConfig,
}

impl View for Config {
    type V = ConfigView;

    open spec fn view(&self) -> ConfigView {
        ConfigView { holiday_data: self.holiday_data@, cache: self.cache }
    }
}

impl Clone for Config {
    fn clone(&self) -> (copy: Self)
        ensures
            copy@ == self@,
    {
        Config { holiday_data: self.holiday_data.clone(), cache: self.cache }
    }
}

/// The values of a configuration file before they are checked: the strategy
/// by its name, the numbers as the signed integers that the file format has.
#[derive(Debug)]
pub struct StoredConfig {
    pub source_url: String,
    pub cache_file: String,
    pub strategy: String,
    pub max_age_hours: i64,
    pub etag_check_interval_hours: i64,
    pub force_refresh_on_startup: bool,
}

/// What a [`StoredConfig`] holds, as mathematical values.
pub struct StoredConfigView {
    pub source_url: Seq<char>,
    pub cache_file: Seq<char>,
    pub strategy: Seq<char>,
    pub max_age_hours: int,
    pub etag_check_interval_hours: int,
    pub force_refresh_on_startup: bool,
}

impl View for StoredConfig {
    type V = StoredConfigView;

    open spec fn view(&self) -> StoredConfigView {
        StoredConfigView {
            source_url: self.source_url@,
            cache_file: self.cache_file@,
            strategy: self.strategy@,
            max_age_hours: self.max_age_hours as int,
            etag_check_interval_hours: self.etag_check_interval_hours as int,
            force_refresh_on_startup: self.force_refresh_on_startup,
        }
    }
}

impl ConfigView {
    /// The configuration that is used where no file gives one: the official
    /// source, the strategy [`CacheStrategy::Hybrid`], a week as the greatest
    /// age and a day between two looks at the ETag.
    pub open spec fn standard() -> ConfigView {
        ConfigView {
            holiday_data: HolidayDataConfigView {
                source_url: DEFAULT_SOURCE_URL@,
                cache_file: DEFAULT_CACHE_FILE@,
            },
            cache: CacheConfig {
                strategy: CacheStrategy::Hybrid,
                max_age_hours: DEFAULT_MAX_AGE_HOURS,
                etag_check_interval_hours: DEFAULT_ETAG_CHECK_INTERVAL_HOURS,
                force_refresh_on_startup: false,
            },
        }
    }

    /// The configuration that the values of a file give, or
    /// [`HolidayError::Config`] where the strategy is unknown or a number of
    /// hours is negative.
    pub open spec fn checked(stored: StoredConfigView) -> Result<ConfigView, HolidayError> {
        match CacheStrategy::named(stored.strategy) {
            Some(strategy) => if 0 <= stored.max_age_hours && 0
                <= stored.etag_check_interval_hours {
                Ok(
                    ConfigView {
                        holiday_data: HolidayDataConfigView {
                            source_url: stored.source_url,
                            cache_file: stored.cache_file,
                        },
                        cache: CacheConfig {
                            strategy,
                            max_age_hours: stored.max_age_hours as u64,
                            etag_check_interval_hours: stored.etag_check_interval_hours as u64,
                            force_refresh_on_startup: stored.force_refresh_on_startup,
                        },
                    },
                )
            } else {
                Err(HolidayError::Config)
            },
            None => Err(HolidayError::Config),
        }
    }

    /// The configuration to work with: the one that the file gives where
    /// there is a file, the standard one where there is none.
    pub open spec fn loaded(stored: Option<StoredConfigView>) -> Result<ConfigView, HolidayError> {
        match stored {
            Some(values) => ConfigView::checked(values),
            None => Ok(ConfigView::standard()),
        }
    }
}

/// The values of the configuration file, if there is one.
pub open spec fn stored_values(stored: Option<StoredConfig>) -> Option<StoredConfigView> {
    match stored {
        Some(values) => Some(values@),
        None => None,
    }
}

impl Default for Config {
    fn default() -> (config: Self)
        ensures
            config@ == ConfigView::standard(),
    {
        Config {
            holiday_data: HolidayDataConfig {
                source_url: DEFAULT_SOURCE_URL.to_owned(),
                cache_file: DEFAULT_CACHE_FILE.to_owned(),
            },
            cache: CacheConfig {
                strategy: CacheStrategy::Hybrid,
                max_age_hours: DEFAULT_MAX_AGE_HOURS,
                etag_check_interval_hours: DEFAULT_ETAG_CHECK_INTERVAL_HOURS,
                force_refresh_on_startup: false,
            },
        }
    }
}

impl Config {
    /// The configuration to work with, given the values of the configuration
    /// file, or `None` where there is no such file: the checked values of the
    /// file, or else the standard configuration. Fails with
    /// [`HolidayError::Config`] where the file names an unknown strategy or
    /// holds a negative number of hours.
    pub fn load(stored: Option<StoredConfig>) -> (config: Result<Config, HolidayError>)
        ensures
            match config {
                Ok(c) => ConfigView::loaded(stored_values(stored)) == Ok::<
                    ConfigView,
                    HolidayError,
                >(c@),
                Err(e) => ConfigView::loaded(stored_values(stored)) == Err::<
                    ConfigView,
                    HolidayError,
                >(e),
            },
    {
        match stored {
            None => Ok(Config::default()),
            Some(values) => {
                let strategy = match CacheStrategy::from_name(values.strategy.as_str()) {
                    Ok(s) => s,
                    Err(e) => {
                        return Err(e);
                    },
                };
                if values.max_age_hours < 0 || values.etag_check_interval_hours < 0 {
                    return Err(HolidayError::Config);
                }
                Ok(
                    Config {
                        holiday_data: HolidayDataConfig {
                            source_url: values.source_url,
                            cache_file: values.cache_file,
                        },
                        cache: CacheConfig {
                            strategy,
                            max_age_hours: values.max_age_hours as u64,
                            etag_check_interval_hours: values.etag_check_interval_hours as u64,
                            force_refresh_on_startup: values.force_refresh_on_startup,
                        },
                    },
                )
            },
        }
    }

    /// The values to write to a configuration file so that [`Config::load`]
    /// gives this configuration back. A number of hours too large for the
    /// file format is written as the largest number that the format has.
    pub fn to_stored(&self) -> (stored: StoredConfig)
        ensures
            stored@.source_url == self@.holiday_data.source_url,
            stored@.cache_file == self@.holiday_data.cache_file,
            stored@.strategy == self@.cache.strategy.name_text(),
            stored@.max_age_hours == if self@.cache.max_age_hours <= i64::MAX {
                self@.cache.max_age_hours as int
            } else {
                i64::MAX as int
            },
            stored@.etag_check_interval_hours == if self@.cache.etag_check_interval_hours
                <= i64::MAX {
                self@.cache.etag_check_interval_hours as int
            } else {
                i64::MAX as int
            },
            stored@.force_refresh_on_startup == self@.cache.force_refresh_on_startup,
    {
        StoredConfig {
            source_url: self.holiday_data.source_url.clone(),
            cache_file: self.holiday_data.cache_file.clone(),
            strategy: self.cache.strategy.name().to_owned(),
            max_age_hours: hours_for_file(self.cache.max_age_hours),
            etag_check_interval_hours: hours_for_file(self.cache.etag_check_interval_hours),
            force_refresh_on_startup: self.cache.force_refresh_on_startup,
        }
    }
}

/// A number of hours as the signed integer of the file format.
fn hours_for_file(hours: u64) -> (stored: i64)
    ensures
        stored == if hours <= i64::MAX {
            hours as int
        } else {
            i64::MAX as int
        },
{
    if hours <= 9223372036854775807u64 {
        hours as i64
    } else {
        9223372036854775807i64
    }
}

/// A configuration that was written to a file is read back unchanged, as
/// long as its numbers of hours fit the file format.
pub proof fn lemma_config_round_trip(config: ConfigView, stored: StoredConfigView)
    requires
        config.cache.max_age_hours <= i64::MAX,
        config.cache.etag_check_interval_hours <= i64::MAX,
        stored.source_url == config.holiday_data.source_url,
        stored.cache_file == config.holiday_data.cache_file,
        stored.strategy == config.cache.strategy.name_text(),
        stored.max_age_hours == config.cache.max_age_hours,
        stored.etag_check_interval_hours == config.cache.etag_check_interval_hours,
        stored.force_refresh_on_startup == config.cache.force_refresh_on_startup,
    ensures
        ConfigView::loaded(Some(stored)) == Ok::<ConfigView, HolidayError>(config),
{
    lemma_strategy_name_round_trip(config.cache.strategy);
}

} // verus!
