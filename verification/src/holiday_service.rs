//! The holiday service: holds the holiday table once it is loaded and
//! answers queries against it.

use crate::cache::HolidayCache;
use crate::clock::local_today;
use crate::config::{Config, ConfigView};
use crate::date::Ymd;
use crate::date_parse::flexible_date;
use crate::error::HolidayError;
use crate::holiday::{get_holiday, get_holidays_in_range, point_answer, range_answer};
use crate::holiday_map::HolidayMap;
use vstd::prelude::*;

verus! {

/// Answers queries against the holiday table. The table has to be handed in
/// with [`HolidayService::initialize`] before the first query.
#[derive(Debug)]
pub struct HolidayService {
    cache: HolidayCache,
    holidays: Option<HolidayMap>,
}

/// What a [`HolidayService`] holds, as mathematical values.
pub struct HolidayServiceView {
    /// The configuration of its cache.
    pub config: ConfigView,
    /// The holiday table, once it is loaded.
    pub holidays: Option<Map<Seq<char>, Seq<char>>>,
}

impl View for HolidayService {
    type V = HolidayServiceView;

    closed spec fn view(&self) -> HolidayServiceView {
        HolidayServiceView {
            config: self.cache@,
            holidays: match self.holidays {
                Some(table) => Some(table@),
                None => None,
            },
        }
    }
}

impl HolidayServiceView {
    /// The answer to a point query for the day written in `date`:
    /// [`HolidayError::NotInitialized`] before the table is loaded.
    pub open spec fn point_query(self, date: Seq<char>) -> Result<
        (bool, Option<Seq<char>>),
        HolidayError,
    > {
        match self.holidays {
            Some(table) => point_answer(table, flexible_date(date)),
            None => Err(HolidayError::NotInitialized),
        }
    }

    /// The answer to a range query for the days written in `start` and `end`:
    /// [`HolidayError::NotInitialized`] before the table is loaded.
    pub open spec fn range_query(self, start: Seq<char>, end: Seq<char>) -> Result<
        Seq<(Seq<char>, Seq<char>)>,
        HolidayError,
    > {
        match self.holidays {
            Some(table) => range_answer(table, flexible_date(start), flexible_date(end)),
            None => Err(HolidayError::NotInitialized),
        }
    }
}

impl HolidayService {
    /// A service that goes by `config`. It holds no table yet.
    pub fn new(config: Config) -> (service: HolidayService)
        ensures
            service@.config == config@,
            service@.holidays is None,
    {
        HolidayService { cache: HolidayCache::new(config), holidays: None }
    }

    /// The cache, which leads through getting the table.
    pub fn cache(&self) -> (cache: &HolidayCache)
        ensures
            cache@ == self@.config,
    {
        &self.cache
    }

    /// Whether the table is loaded.
    pub fn is_initialized(&self) -> (loaded: bool)
        ensures
            loaded == self@.holidays is Some,
    {
        self.holidays.is_some()
    }

    /// Takes in what getting the table has ended in. A table replaces the
    /// one held so far, as a whole. A failure is handed on, and the service
    /// stays as it was.
    pub fn initialize(&mut self, loaded: Result<HolidayMap, HolidayError>) -> (done: Result<
        (),
        HolidayError,
    >)
        ensures
            final(self)@.config == old(self)@.config,
            match loaded {
                Ok(table) => done is Ok && final(self)@.holidays == Some(table@),
                Err(e) => done == Err::<(), HolidayError>(e) && final(self)@ == old(self)@,
            },
    {
        match loaded {
            Ok(table) => {
                self.holidays = Some(table);
                Ok(())
            },
            Err(e) => Err(e),
        }
    }

    /// Whether the day written in `date` is a holiday, and the name of the
    /// holiday if it is one. Fails with [`HolidayError::NotInitialized`]
    /// before the table is loaded, and with [`HolidayError::Parse`] where
    /// `date` has none of the supported formats.
    pub fn get_holiday(&self, date: &str) -> (found: Result<(bool, Option<String>), HolidayError>)
        ensures
            match found {
                Ok(entry) => self@.point_query(date@) == Ok::<
                    (bool, Option<Seq<char>>),
                    HolidayError,
                >((entry.0, entry.1.deep_view())),
                Err(e) => self@.point_query(date@) == Err::<
                    (bool, Option<Seq<char>>),
                    HolidayError,
                >(e),
            },
    {
        match &self.holidays {
            Some(table) => get_holiday(table, date),
            None => Err(HolidayError::NotInitialized),
        }
    }

    /// The holidays from the day written in `start_date` to the day written
    /// in `end_date`, both included, in ascending order of date. Fails with
    /// [`HolidayError::NotInitialized`] before the table is loaded, with
    /// [`HolidayError::Parse`] where a bound has none of the supported
    /// formats, and with [`HolidayError::InvalidRange`] where the start is
    /// after the end.
    pub fn get_holidays_in_range(&self, start_date: &str, end_date: &str) -> (found: Result<
        Vec<(String, String)>,
        HolidayError,
    >)
        ensures
            match found {
                Ok(list) => self@.range_query(start_date@, end_date@) == Ok::<
                    Seq<(Seq<char>, Seq<char>)>,
                    HolidayError,
                >(list.deep_view()),
                Err(e) => self@.range_query(start_date@, end_date@) == Err::<
                    Seq<(Seq<char>, Seq<char>)>,
                    HolidayError,
                >(e),
            },
    {
        match &self.holidays {
            Some(table) => get_holidays_in_range(table, start_date, end_date),
            None => Err(HolidayError::NotInitialized),
        }
    }

    /// The date of today in the local time zone, in the compact form
    /// `YYYYMMDD`.
    pub fn get_today_date() -> (today: String)
        ensures
            exists|day: Ymd| day.is_valid() && today@ == #[trigger] day.compact_key(),
    {
        let day = local_today();
        let today = day.to_compact();
        assert(day@.is_valid() && today@ == day@.compact_key());
        today
    }
}

} // verus!
