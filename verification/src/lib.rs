//! # holidays_jp
//!
//! Decides whether a calendar date is a Japanese national holiday.
//!
//! The holiday table is published by the Cabinet Office as a Shift_JIS CSV
//! file. This library decodes that file, keeps the table in memory, answers
//! point and range queries against it, and decides when a locally cached copy
//! of the table has to be fetched again. It performs no file or network I/O
//! itself: the caller carries out the reads and requests that
//! [`HolidayCache::get_holidays`] asks for and hands the results back.
//!
//! Every function is verified with Verus against the contract in its header.
//! What is taken on trust is marked as such where it stands: the calls into
//! `chrono` (reading a date from text, the clock), `csv` (splitting the table
//! into rows) and `encoding_rs` (decoding Shift_JIS).
//!
//! ## Modules
//!
//! - [`date`], [`date_text`], [`date_parse`]: calendar dates, their text
//!   forms, and the formats in which a date may be written.
//! - [`holiday_map`]: the holiday table.
//! - [`holiday`]: point and range queries against a table.
//! - [`reader`]: reading the table from the published file.
//! - [`timestamp`], [`config`], [`cache`]: points in time, the configuration,
//!   and the rules by which the cached copy is kept or fetched again.
//! - [`holiday_service`]: the service that holds the table once it is loaded.
//! - [`error`], [`constants`]: the failures, and the fixed values.

pub mod cache;
mod clock;
pub mod config;
pub mod constants;
pub mod date;
pub mod date_parse;
pub mod date_text;
pub mod error;
pub mod holiday;
pub mod holiday_map;
pub mod holiday_service;
pub mod reader;
pub mod timestamp;

pub use cache::HolidayCache;
pub use config::Config;
pub use date::Date;
pub use error::HolidayError;
pub use holiday_map::HolidayMap;
pub use holiday_service::HolidayService;
