//! The cached copy of the holiday table and the rules that decide when it is
//! fetched again.
//!
//! The library does not read files or talk to the network. Getting the table
//! is a conversation with the caller: [`HolidayCache::get_holidays`] is told
//! what has happened so far (a [`Stage`]) and answers with what is to be done
//! next (an [`Action`]). The caller does it and comes back with the next
//! stage, until the answer is [`Action::Use`] or [`Action::Fail`].

use crate::clock::utc_now;
use crate::config::{CacheConfig, CacheStrategy, Config, ConfigView};
use crate::error::HolidayError;
use crate::holiday_map::HolidayMap;
use crate::reader::{get_holidays, table_of_bytes};
use crate::timestamp::{lemma_hours_grow_with_time, Timestamp};
use vstd::prelude::*;

verus! {

/// What is known of the cached copy besides the table itself.
#[derive(Debug)]
pub struct CacheMetadata {
    /// When the table was last downloaded with success. A look at the remote
    /// ETag that led to no download does not change it.
    pub last_updated: Timestamp,
    /// The ETag that the source sent with the table.
    pub etag: Option<String>,
    /// The `Last-Modified` header that the source sent with the table.
    pub last_modified: Option<String>,
    /// When the source last answered a request for its ETag or for the
    /// table.
    pub last_etag_check: Option<Timestamp>,
    /// The address that the table was downloaded from.
    pub source_url: String,
    /// The greatest age in hours that was configured at the download.
    pub cache_duration_hours: u64,
}

/// What a [`CacheMetadata`] holds, as mathematical values.
pub struct CacheMetadataView {
    pub last_updated: Timestamp,
    pub etag: Option<Seq<char>>,
    pub last_modified: Option<Seq<char>>,
    pub last_etag_check: Option<Timestamp>,
    pub source_url: Seq<char>,
    pub cache_duration_hours: u64,
}

impl View for CacheMetadata {
    type V = CacheMetadataView;

    open spec fn view(&self) -> CacheMetadataView {
        CacheMetadataView {
            last_updated: self.last_updated,
            etag: self.etag.deep_view(),
            last_modified: self.last_modified.deep_view(),
            last_etag_check: self.last_etag_check,
            source_url: self.source_url@,
            cache_duration_hours: self.cache_duration_hours,
        }
    }
}

/// The cached copy: the holiday table with what is known of it. It is read
/// and written as a whole.
#[derive(Debug)]
pub struct CacheData {
    pub metadata: CacheMetadata,
    pub holidays: HolidayMap,
}

/// What a [`CacheData`] holds, as mathematical values.
pub struct CacheDataView {
    pub metadata: CacheMetadataView,
    pub holidays: Map<Seq<char>, Seq<char>>,
}

impl View for CacheData {
    type V = CacheDataView;

    open spec fn view(&self) -> CacheDataView {
        CacheDataView { metadata: self.metadata@, holidays: self.holidays@ }
    }
}

/// The answer of the source to a request for its headers.
#[derive(Debug)]
pub struct ProbeResponse {
    /// The HTTP status.
    pub status: u16,
    /// The `ETag` header, if there is one.
    pub etag: Option<String>,
}

/// The answer of the source to a request for the table.
#[derive(Debug)]
pub struct Download {
    /// The HTTP status.
    pub status: u16,
    /// The body as it was sent.
    pub body: Vec<u8>,
    /// The `ETag` header, if there is one.
    pub etag: Option<String>,
    /// The `Last-Modified` header, if there is one.
    pub last_modified: Option<String>,
}

/// What a [`Download`] holds, as mathematical values.
pub struct DownloadView {
    pub status: u16,
    pub body: Seq<u8>,
    pub etag: Option<Seq<char>>,
    pub last_modified: Option<Seq<char>>,
}

impl View for Download {
    type V = DownloadView;

    open spec fn view(&self) -> DownloadView {
        DownloadView {
            status: self.status,
            body: self.body@,
            etag: self.etag.deep_view(),
            last_modified: self.last_modified.deep_view(),
        }
    }
}

/// Whether an HTTP status reports success: 200 to 299.
pub open spec fn is_success(status: u16) -> bool {
    200 <= status <= 299
}

/// What a probe has found: the remote ETag, or that the source sent none, or
/// why the probe failed.
pub open spec fn probe_finding(probe: Result<Option<String>, HolidayError>) -> Result<
    Option<Seq<char>>,
    HolidayError,
> {
    match probe {
        Ok(etag) => Ok(etag.deep_view()),
        Err(e) => Err(e),
    }
}

/// What the answer to a request for the headers amounts to: the ETag, if the
/// source sent one; [`HolidayError::Network`] where the status is not a
/// success; the failure of the request itself, if it failed.
pub open spec fn remote_etag(response: Result<ProbeResponse, HolidayError>) -> Result<
    Option<Seq<char>>,
    HolidayError,
> {
    match response {
        Ok(answer) => if is_success(answer.status) {
            Ok(answer.etag.deep_view())
        } else {
            Err(HolidayError::Network)
        },
        Err(e) => Err(e),
    }
}

/// The copy is too old: more whole hours have passed since its download than
/// the configuration allows. As many hours as it allows are not too many.
pub open spec fn is_stale(
    metadata: CacheMetadataView,
    rules: CacheConfig,
    now: Timestamp,
) -> bool {
    metadata.last_updated.hours_until(now) > rules.max_age_hours
}

/// A look at the remote ETag is due: none was ever taken, or more whole hours
/// have passed since the last one than the configured interval.
pub open spec fn probe_is_due(
    metadata: CacheMetadataView,
    rules: CacheConfig,
    now: Timestamp,
) -> bool {
    match metadata.last_etag_check {
        Some(last) => last.hours_until(now) > rules.etag_check_interval_hours,
        None => true,
    }
}

/// The verdict by ETag: fetch again where the source names an ETag other
/// than the cached one. Where the copy has no ETag, the source names none, or
/// the probe failed, the age of the copy decides.
pub open spec fn etag_verdict(
    metadata: CacheMetadataView,
    rules: CacheConfig,
    now: Timestamp,
    probe: Result<Option<Seq<char>>, HolidayError>,
) -> bool {
    match metadata.etag {
        None => is_stale(metadata, rules, now),
        Some(cached) => match probe {
            Ok(Some(remote)) => remote != cached,
            _ => is_stale(metadata, rules, now),
        },
    }
}

/// The verdict of the hybrid rule: fetch again where the copy is too old;
/// else, where a look at the ETag is due, let the ETag decide; else keep.
pub open spec fn hybrid_verdict(
    metadata: CacheMetadataView,
    rules: CacheConfig,
    now: Timestamp,
    probe: Result<Option<Seq<char>>, HolidayError>,
) -> bool {
    if is_stale(metadata, rules, now) {
        true
    } else if probe_is_due(metadata, rules, now) {
        etag_verdict(metadata, rules, now, probe)
    } else {
        false
    }
}

/// Whether the table is to be fetched again, under the configured strategy.
/// `probe` is what a look at the remote ETag has found; it counts only where
/// [`refresh_plan`] asks for one.
pub open spec fn refresh_verdict(
    metadata: CacheMetadataView,
    rules: CacheConfig,
    now: Timestamp,
    probe: Result<Option<Seq<char>>, HolidayError>,
) -> bool {
    match rules.strategy {
        CacheStrategy::AlwaysRefresh => true,
        CacheStrategy::NeverRefresh => false,
        CacheStrategy::TimeBased => is_stale(metadata, rules, now),
        CacheStrategy::EtagBased => etag_verdict(metadata, rules, now, probe),
        CacheStrategy::Hybrid => hybrid_verdict(metadata, rules, now, probe),
    }
}

/// What can be said before any request is made.
#[derive(Clone, Copy, Debug, PartialEq, Eq, Structural)]
pub enum RefreshPlan {
    /// The table is to be fetched again.
    Refresh,
    /// The copy is good.
    Keep,
    /// The remote ETag decides: it has to be asked for.
    Probe,
}

/// What can be said before any request is made. The source is asked for its
/// ETag only where the strategy goes by the ETag, the copy has one, and, under
/// the hybrid rule, the copy is not too old and a look is due.
pub open spec fn refresh_plan(
    metadata: CacheMetadataView,
    rules: CacheConfig,
    now: Timestamp,
) -> RefreshPlan {
    let by_age = if is_stale(metadata, rules, now) {
        RefreshPlan::Refresh
    } else {
        RefreshPlan::Keep
    };
    match rules.strategy {
        CacheStrategy::AlwaysRefresh => RefreshPlan::Refresh,
        CacheStrategy::NeverRefresh => RefreshPlan::Keep,
        CacheStrategy::TimeBased => by_age,
        CacheStrategy::EtagBased => if metadata.etag is Some {
            RefreshPlan::Probe
        } else {
            by_age
        },
        CacheStrategy::Hybrid => if !is_stale(metadata, rules, now) && probe_is_due(
            metadata,
            rules,
            now,
        ) && metadata.etag is Some {
            RefreshPlan::Probe
        } else {
            by_age
        },
    }
}

/// What has happened so far in getting the holiday table.
#[derive(Debug)]
pub enum Stage {
    /// Nothing yet.
    Start,
    /// The cache file was read, or could not be read.
    Loaded(Result<CacheData, HolidayError>),
    /// The source was asked for its headers, to see whether `snapshot` is
    /// still good.
    Probed { snapshot: CacheData, response: Result<ProbeResponse, HolidayError> },
    /// The source was asked for the table.
    Fetched(Result<Download, HolidayError>),
    /// `snapshot` was written to the cache file, or could not be written.
    Stored { snapshot: CacheData, outcome: Result<(), HolidayError> },
}

/// What a [`Stage`] holds, as mathematical values.
pub enum StageView {
    Start,
    Loaded(Result<CacheDataView, HolidayError>),
    Probed { snapshot: CacheDataView, finding: Result<Option<Seq<char>>, HolidayError> },
    Fetched(Result<DownloadView, HolidayError>),
    Stored { snapshot: CacheDataView, outcome: Result<(), HolidayError> },
}

impl View for Stage {
    type V = StageView;

    open spec fn view(&self) -> StageView {
        match self {
            Stage::Start => StageView::Start,
            Stage::Loaded(Ok(snapshot)) => StageView::Loaded(Ok(snapshot@)),
            Stage::Loaded(Err(e)) => StageView::Loaded(Err(*e)),
            Stage::Probed { snapshot, response } => StageView::Probed {
                snapshot: snapshot@,
                finding: remote_etag(*response),
            },
            Stage::Fetched(Ok(download)) => StageView::Fetched(Ok(download@)),
            Stage::Fetched(Err(e)) => StageView::Fetched(Err(*e)),
            Stage::Stored { snapshot, outcome } => StageView::Stored {
                snapshot: snapshot@,
                outcome: *outcome,
            },
        }
    }
}

/// What is to be done next in getting the holiday table.
#[derive(Debug)]
pub enum Action {
    /// Read the cache file and come back with [`Stage::Loaded`].
    LoadCache,
    /// Ask the source for its headers, within the time allowed for a probe,
    /// and come back with [`Stage::Probed`] and this snapshot.
    Probe(CacheData),
    /// Ask the source for the table, within the time allowed for a download,
    /// and come back with [`Stage::Fetched`].
    Download,
    /// Write this snapshot to the cache file, all of it or nothing, and come
    /// back with [`Stage::Stored`] and this snapshot.
    Store(CacheData),
    /// Done: this is the holiday table.
    Use(HolidayMap),
    /// Done: the table could not be got. What was cached and what is in
    /// memory stay as they are.
    Fail(HolidayError),
}

/// What an [`Action`] holds, as mathematical values.
pub enum ActionView {
    LoadCache,
    Probe(CacheDataView),
    Download,
    Store(CacheDataView),
    Use(Map<Seq<char>, Seq<char>>),
    Fail(HolidayError),
}

impl View for Action {
    type V = ActionView;

    open spec fn view(&self) -> ActionView {
        match self {
            Action::LoadCache => ActionView::LoadCache,
            Action::Probe(snapshot) => ActionView::Probe(snapshot@),
            Action::Download => ActionView::Download,
            Action::Store(snapshot) => ActionView::Store(snapshot@),
            Action::Use(holidays) => ActionView::Use(holidays@),
            Action::Fail(e) => ActionView::Fail(*e),
        }
    }
}

/// The snapshot that a download at the time `now` gives, or why it gives
/// none: [`HolidayError::Network`] where the status is not a success,
/// [`HolidayError::Parse`] where the body cannot be read.
pub open spec fn snapshot_of_download(
    config: ConfigView,
    download: DownloadView,
    now: Timestamp,
) -> Result<CacheDataView, HolidayError> {
    if !is_success(download.status) {
        Err(HolidayError::Network)
    } else {
        match table_of_bytes(download.body) {
            Ok(holidays) => Ok(
                CacheDataView {
                    metadata: CacheMetadataView {
                        last_updated: now,
                        etag: download.etag,
                        last_modified: download.last_modified,
                        last_etag_check: Some(now),
                        source_url: config.holiday_data.source_url,
                        cache_duration_hours: config.cache.max_age_hours,
                    },
                    holidays,
                },
            ),
            Err(e) => Err(e),
        }
    }
}

/// The snapshot with the time of the last look at the ETag set to `now`.
pub open spec fn with_etag_check(snapshot: CacheDataView, now: Timestamp) -> CacheDataView {
    CacheDataView {
        metadata: CacheMetadataView { last_etag_check: Some(now), ..snapshot.metadata },
        holidays: snapshot.holidays,
    }
}

/// What is to be done next, at the time `now`.
///
/// - At the start: download, where the configuration forces it; else read
///   the cache file.
/// - The cache file could not be read: download.
/// - It was read: go by [`refresh_plan`], and use the cached table where the
///   plan is to keep it.
/// - The source was asked for its headers: go by [`refresh_verdict`]. Where
///   the copy is kept and the source has answered, store the copy with the
///   time of this look; where the probe failed, use the copy as it is.
/// - The download failed, or its status is no success, or its body cannot be
///   read: fail. Else store the new snapshot.
/// - The snapshot was stored: use its table. It could not be stored: fail.
pub open spec fn next_step(config: ConfigView, stage: StageView, now: Timestamp) -> ActionView {
    match stage {
        StageView::Start => if config.cache.force_refresh_on_startup {
            ActionView::Download
        } else {
            ActionView::LoadCache
        },
        StageView::Loaded(Err(_)) => ActionView::Download,
        StageView::Loaded(Ok(snapshot)) => match refresh_plan(
            snapshot.metadata,
            config.cache,
            now,
        ) {
            RefreshPlan::Refresh => ActionView::Download,
            RefreshPlan::Keep => ActionView::Use(snapshot.holidays),
            RefreshPlan::Probe => ActionView::Probe(snapshot),
        },
        StageView::Probed { snapshot, finding } => if refresh_verdict(
            snapshot.metadata,
            config.cache,
            now,
            finding,
        ) {
            ActionView::Download
        } else if finding is Ok {
            ActionView::Store(with_etag_check(snapshot, now))
        } else {
            ActionView::Use(snapshot.holidays)
        },
        StageView::Fetched(Err(e)) => ActionView::Fail(e),
        StageView::Fetched(Ok(download)) => match snapshot_of_download(config, download, now) {
            Ok(snapshot) => ActionView::Store(snapshot),
            Err(e) => ActionView::Fail(e),
        },
        StageView::Stored { snapshot, outcome } => match outcome {
            Ok(_) => ActionView::Use(snapshot.holidays),
            Err(e) => ActionView::Fail(e),
        },
    }
}

/// Two evaluations on the same metadata at the same time give the same
/// verdict, whatever a probe may find in between, where the strategy does not
/// go by the ETag; and no probe is asked for then.
pub proof fn lemma_verdict_without_etag_is_stable(
    metadata: CacheMetadataView,
    rules: CacheConfig,
    now: Timestamp,
    first: Result<Option<Seq<char>>, HolidayError>,
    second: Result<Option<Seq<char>>, HolidayError>,
)
    requires
        rules.strategy == CacheStrategy::NeverRefresh || rules.strategy
            == CacheStrategy::TimeBased || rules.strategy == CacheStrategy::AlwaysRefresh,
    ensures
        refresh_verdict(metadata, rules, now, first) == refresh_verdict(
            metadata,
            rules,
            now,
            second,
        ),
        refresh_plan(metadata, rules, now) != RefreshPlan::Probe,
        rules.strategy == CacheStrategy::NeverRefresh ==> !refresh_verdict(
            metadata,
            rules,
            now,
            first,
        ),
        rules.strategy == CacheStrategy::AlwaysRefresh ==> refresh_verdict(
            metadata,
            rules,
            now,
            first,
        ),
{
}

/// Plan and verdict never differ: where the plan is to fetch again or to
/// keep, the verdict is the same whatever a probe would find, so that none
/// has to be made. Where the plan is to probe, the copy has an ETag, and the
/// verdict is to fetch again exactly where the source names another one, or,
/// where the probe fails or finds none, where the copy is too old.
pub proof fn lemma_plan_agrees_with_verdict(
    metadata: CacheMetadataView,
    rules: CacheConfig,
    now: Timestamp,
    probe: Result<Option<Seq<char>>, HolidayError>,
)
    ensures
        refresh_plan(metadata, rules, now) == RefreshPlan::Refresh ==> refresh_verdict(
            metadata,
            rules,
            now,
            probe,
        ),
        refresh_plan(metadata, rules, now) == RefreshPlan::Keep ==> !refresh_verdict(
            metadata,
            rules,
            now,
            probe,
        ),
        refresh_plan(metadata, rules, now) == RefreshPlan::Probe ==> metadata.etag is Some
            && refresh_verdict(metadata, rules, now, probe) == (match probe {
            Ok(Some(remote)) => Some(remote) != metadata.etag,
            _ => is_stale(metadata, rules, now),
        }),
{
}

/// A copy that is too old stays too old as time goes on.
pub proof fn lemma_stale_copy_stays_stale(
    metadata: CacheMetadataView,
    rules: CacheConfig,
    earlier: Timestamp,
    later: Timestamp,
)
    requires
        earlier.total_nanos() <= later.total_nanos(),
        is_stale(metadata, rules, earlier),
    ensures
        is_stale(metadata, rules, later),
{
    lemma_hours_grow_with_time(metadata.last_updated, earlier, later);
}

/// A probe that fails, or that finds no ETag, never stands in the way: the
/// verdict is then the one that the age of the copy gives, under the hybrid
/// rule as well.
pub proof fn lemma_failed_probe_falls_back_to_age(
    metadata: CacheMetadataView,
    rules: CacheConfig,
    now: Timestamp,
    probe: Result<Option<Seq<char>>, HolidayError>,
)
    requires
        probe is Err || probe == Ok::<Option<Seq<char>>, HolidayError>(None),
        rules.strategy == CacheStrategy::EtagBased || rules.strategy == CacheStrategy::Hybrid,
    ensures
        refresh_verdict(metadata, rules, now, probe) == is_stale(metadata, rules, now),
{
}

/// Under the hybrid rule the source is asked for its ETag at most once per
/// configured interval: no probe is planned until more whole hours than the
/// interval have passed since the last look.
pub proof fn lemma_hybrid_probes_once_per_interval(
    metadata: CacheMetadataView,
    rules: CacheConfig,
    now: Timestamp,
)
    requires
        rules.strategy == CacheStrategy::Hybrid,
        metadata.last_etag_check matches Some(last) && last.hours_until(now)
            <= rules.etag_check_interval_hours,
    ensures
        refresh_plan(metadata, rules, now) != RefreshPlan::Probe,
{
}

/// Only a download sets the time of the last update, and only an answer of
/// the source sets the time of the last look at the ETag: a snapshot that is
/// stored after a probe is the probed one with nothing changed but the time
/// of the last look, and after a failed probe nothing is stored at all. The
/// table that is used after a probe is the cached one.
pub proof fn lemma_probe_changes_the_check_time_only(
    config: ConfigView,
    snapshot: CacheDataView,
    finding: Result<Option<Seq<char>>, HolidayError>,
    now: Timestamp,
)
    ensures
        match next_step(config, StageView::Probed { snapshot, finding }, now) {
            ActionView::Store(stored) => finding is Ok && stored.holidays == snapshot.holidays
                && stored.metadata == (CacheMetadataView {
                last_etag_check: Some(now),
                ..snapshot.metadata
            }),
            ActionView::Use(holidays) => finding is Err && holidays == snapshot.holidays,
            ActionView::Download => true,
            _ => false,
        },
{
}

/// A download that fails, in the request, by its status or by its body,
/// ends in the failure: nothing is stored and no table is handed out, so what
/// was cached and what is in memory stay as they were.
pub proof fn lemma_failed_download_stores_nothing(
    config: ConfigView,
    fetched: Result<DownloadView, HolidayError>,
    now: Timestamp,
)
    requires
        fetched matches Ok(download) ==> snapshot_of_download(config, download, now) is Err,
    ensures
        next_step(config, StageView::Fetched(fetched), now) is Fail,
{
}

/// A configuration that forces a download at startup gets one, whatever the
/// state of the cached copy.
pub proof fn lemma_forced_refresh_downloads(config: ConfigView, now: Timestamp)
    requires
        config.cache.force_refresh_on_startup,
    ensures
        next_step(config, StageView::Start, now) == ActionView::Download,
{
}

/// What the answer to a request for the headers amounts to: the ETag, if the
/// source sent one. A status that is no success is an error, never an
/// absent ETag.
pub fn check_remote_etag(response: Result<ProbeResponse, HolidayError>) -> (finding: Result<
    Option<String>,
    HolidayError,
>)
    ensures
        probe_finding(finding) == remote_etag(response),
{
    match response {
        Ok(answer) => {
            if 200 <= answer.status && answer.status <= 299 {
                Ok(answer.etag)
            } else {
                Err(HolidayError::Network)
            }
        },
        Err(e) => Err(e),
    }
}

/// Decides when the cached copy of the holiday table is fetched again, and
/// leads the caller through getting the table.
#[derive(Debug)]
pub struct HolidayCache {
    config: Config,
}

impl View for HolidayCache {
    type V = ConfigView;

    closed spec fn view(&self) -> ConfigView {
        self.config@
    }
}

impl HolidayCache {
    /// A cache that goes by `config`.
    pub fn new(config: Config) -> (cache: HolidayCache)
        ensures
            cache@ == config@,
    {
        HolidayCache { config }
    }

    /// The configuration.
    pub fn config(&self) -> (config: &Config)
        ensures
            config@ == self@,
    {
        &self.config
    }

    /// The age of the copy at the time `now` in whole hours, rounded down.
    pub fn get_cache_age_hours(&self, metadata: &CacheMetadata, now: Timestamp) -> (hours: i64)
        ensures
            hours == metadata@.last_updated.hours_until(now),
    {
        metadata.last_updated.whole_hours_until(&now)
    }

    /// Whether the copy is too old at the time `now`.
    pub fn should_refresh_time_based(&self, metadata: &CacheMetadata, now: Timestamp) -> (refresh:
        bool)
        ensures
            refresh == is_stale(metadata@, self@.cache, now),
    {
        let age = self.get_cache_age_hours(metadata, now);
        age >= 0 && age as u64 > self.config.cache.max_age_hours
    }

    /// Whether a look at the remote ETag is due at the time `now`.
    pub fn should_check_etag(&self, metadata: &CacheMetadata, now: Timestamp) -> (due: bool)
        ensures
            due == probe_is_due(metadata@, self@.cache, now),
    {
        match metadata.last_etag_check {
            Some(last) => {
                let hours = last.whole_hours_until(&now);
                hours >= 0 && hours as u64 > self.config.cache.etag_check_interval_hours
            },
            None => true,
        }
    }

    /// The verdict by ETag, given what the probe has found. A failed probe is
    /// no error here: the age of the copy decides then.
    pub fn should_refresh_etag_based(
        &self,
        metadata: &CacheMetadata,
        now: Timestamp,
        probe: &Result<Option<String>, HolidayError>,
    ) -> (refresh: bool)
        ensures
            refresh == etag_verdict(metadata@, self@.cache, now, probe_finding(*probe)),
    {
        match &metadata.etag {
            None => self.should_refresh_time_based(metadata, now),
            Some(cached) => match probe {
                Ok(Some(remote)) => !(*remote == *cached),
                _ => self.should_refresh_time_based(metadata, now),
            },
        }
    }

    /// The verdict of the hybrid rule, given what the probe has found.
    pub fn should_refresh_hybrid(
        &self,
        metadata: &CacheMetadata,
        now: Timestamp,
        probe: &Result<Option<String>, HolidayError>,
    ) -> (refresh: bool)
        ensures
            refresh == hybrid_verdict(metadata@, self@.cache, now, probe_finding(*probe)),
    {
        if self.should_refresh_time_based(metadata, now) {
            return true;
        }
        if self.should_check_etag(metadata, now) {
            return self.should_refresh_etag_based(metadata, now, probe);
        }
        false
    }

    /// Whether the table is to be fetched again at the time `now`, given
    /// what a look at the remote ETag has found.
    pub fn should_refresh_cache(
        &self,
        metadata: &CacheMetadata,
        now: Timestamp,
        probe: &Result<Option<String>, HolidayError>,
    ) -> (refresh: bool)
        ensures
            refresh == refresh_verdict(metadata@, self@.cache, now, probe_finding(*probe)),
    {
        match self.config.cache.strategy {
            CacheStrategy::AlwaysRefresh => true,
            CacheStrategy::NeverRefresh => false,
            CacheStrategy::TimeBased => self.should_refresh_time_based(metadata, now),
            CacheStrategy::EtagBased => self.should_refresh_etag_based(metadata, now, probe),
            CacheStrategy::Hybrid => self.should_refresh_hybrid(metadata, now, probe),
        }
    }

    /// What can be said at the time `now` before any request is made.
    pub fn plan_refresh(&self, metadata: &CacheMetadata, now: Timestamp) -> (plan: RefreshPlan)
        ensures
            plan == refresh_plan(metadata@, self@.cache, now),
    {
        let stale = self.should_refresh_time_based(metadata, now);
        let by_age = if stale {
            RefreshPlan::Refresh
        } else {
            RefreshPlan::Keep
        };
        match self.config.cache.strategy {
            CacheStrategy::AlwaysRefresh => RefreshPlan::Refresh,
            CacheStrategy::NeverRefresh => RefreshPlan::Keep,
            CacheStrategy::TimeBased => by_age,
            CacheStrategy::EtagBased => if metadata.etag.is_some() {
                RefreshPlan::Probe
            } else {
                by_age
            },
            CacheStrategy::Hybrid => if !stale && self.should_check_etag(metadata, now)
                && metadata.etag.is_some() {
                RefreshPlan::Probe
            } else {
                by_age
            },
        }
    }

    /// The snapshot that a download at the time `now` gives: the table read
    /// from the body, with the headers and the time of the download. Fails
    /// with [`HolidayError::Network`] where the status is no success and with
    /// [`HolidayError::Parse`] where the body cannot be read.
    pub fn download_and_cache(&self, download: Download, now: Timestamp) -> (snapshot: Result<
        CacheData,
        HolidayError,
    >)
        ensures
            match snapshot {
                Ok(s) => snapshot_of_download(self@, download@, now) == Ok::<
                    CacheDataView,
                    HolidayError,
                >(s@),
                Err(e) => snapshot_of_download(self@, download@, now) == Err::<
                    CacheDataView,
                    HolidayError,
                >(e),
            },
    {
        if download.status < 200 || download.status > 299 {
            return Err(HolidayError::Network);
        }
        let holidays = match get_holidays(download.body.as_slice()) {
            Ok(table) => table,
            Err(e) => {
                return Err(e);
            },
        };
        Ok(
            CacheData {
                metadata: CacheMetadata {
                    last_updated: now,
                    etag: download.etag,
                    last_modified: download.last_modified,
                    last_etag_check: Some(now),
                    source_url: self.config.holiday_data.source_url.clone(),
                    cache_duration_hours: self.config.cache.max_age_hours,
                },
                holidays,
            },
        )
    }

    /// What is to be done next in getting the holiday table, at the time
    /// `now`.
    pub fn next_action(&self, stage: Stage, now: Timestamp) -> (action: Action)
        ensures
            action@ == next_step(self@, stage@, now),
    {
        match stage {
            Stage::Start => {
                if self.config.cache.force_refresh_on_startup {
                    Action::Download
                } else {
                    Action::LoadCache
                }
            },
            Stage::Loaded(Err(_)) => Action::Download,
            Stage::Loaded(Ok(snapshot)) => {
                match self.plan_refresh(&snapshot.metadata, now) {
                    RefreshPlan::Refresh => Action::Download,
                    RefreshPlan::Keep => Action::Use(snapshot.holidays),
                    RefreshPlan::Probe => Action::Probe(snapshot),
                }
            },
            Stage::Probed { snapshot, response } => {
                let finding = check_remote_etag(response);
                if self.should_refresh_cache(&snapshot.metadata, now, &finding) {
                    Action::Download
                } else if finding.is_ok() {
                    let mut checked = snapshot;
                    checked.metadata.last_etag_check = Some(now);
                    Action::Store(checked)
                } else {
                    Action::Use(snapshot.holidays)
                }
            },
            Stage::Fetched(Err(e)) => Action::Fail(e),
            Stage::Fetched(Ok(download)) => {
                match self.download_and_cache(download, now) {
                    Ok(snapshot) => Action::Store(snapshot),
                    Err(e) => Action::Fail(e),
                }
            },
            Stage::Stored { snapshot, outcome } => {
                match outcome {
                    Ok(_) => Action::Use(snapshot.holidays),
                    Err(e) => Action::Fail(e),
                }
            },
        }
    }

    /// What is to be done next in getting the holiday table, now. This is
    /// [`HolidayCache::next_action`] at the time that the clock shows.
    pub fn get_holidays(&self, stage: Stage) -> (action: Action)
        ensures
            exists|now: Timestamp| action@ == #[trigger] next_step(self@, stage@, now),
    {
        let now = utc_now();
        self.next_action(stage, now)
    }
}

} // verus!
