//! Reading a date from text. A date may be written in any of seven formats;
//! they are tried in a fixed order and the first that fits decides.

use crate::date::{Date, Ymd};
use crate::error::HolidayError;
use chrono::Datelike;
use vstd::prelude::*;

verus! {

/// What `chrono::NaiveDate::parse_from_str` makes of `text` under the
/// strftime pattern `format`: the date it returns, or `None` where it
/// returns an error.
pub uninterp spec fn parsed_date(text: Seq<char>, format: Seq<char>) -> Option<Ymd>;

/// Calls `chrono::NaiveDate::parse_from_str` and reads year, month and day
/// off the date it returns.
///
/// Trusted: the result is the one named by [`parsed_date`], and a date that
/// chrono returns is a day of the proleptic Gregorian calendar in a year from
/// -262143 to 262142.
#[verifier::external_body]
pub(crate) fn parse_with_format(text: &str, format: &str) -> (date: Option<Date>)
    ensures
        date matches Some(d) ==> parsed_date(text@, format@) == Some(d@) && d@.is_valid(),
        date is None ==> parsed_date(text@, format@) is None,
{
    match chrono::NaiveDate::parse_from_str(text, format) {
        Ok(d) => Some(Date { year: d.year(), month: d.month(), day: d.day() }),
        Err(_) => None,
    }
}

/// The number of supported date formats.
pub const DATE_FORMAT_COUNT: usize = 7;

/// The supported date formats as strftime patterns, in the order in which
/// they are tried.
pub open spec fn supported_formats() -> Seq<Seq<char>> {
    seq![
        "%Y%m%d"@,
        "%Y-%m-%d"@,
        "%Y/%m/%d"@,
        "%Y年%m月%d日"@,
        "%m/%d/%Y"@,
        "%d/%m/%Y"@,
        "%Y.%m.%d"@,
    ]
}

/// The supported date format at `index` in the order of trial, or `None`
/// where there are not so many.
pub fn date_format(index: usize) -> (format: Option<&'static str>)
    ensures
        match format {
            Some(pattern) => index < supported_formats().len() && pattern@
                == supported_formats()[index as int],
            None => index >= supported_formats().len(),
        },
        supported_formats().len() == DATE_FORMAT_COUNT,
{
    if index == 0 {
        Some("%Y%m%d")
    } else if index == 1 {
        Some("%Y-%m-%d")
    } else if index == 2 {
        Some("%Y/%m/%d")
    } else if index == 3 {
        Some("%Y年%m月%d日")
    } else if index == 4 {
        Some("%m/%d/%Y")
    } else if index == 5 {
        Some("%d/%m/%Y")
    } else if index == 6 {
        Some("%Y.%m.%d")
    } else {
        None
    }
}

/// The date that the first fitting format among those at `from` and after
/// gives for `text`.
pub open spec fn first_parse(text: Seq<char>, from: int) -> Option<Ymd>
    decreases supported_formats().len() - from,
{
    if from < 0 || from >= supported_formats().len() {
        None
    } else {
        match parsed_date(text, supported_formats()[from]) {
            Some(d) => Some(d),
            None => first_parse(text, from + 1),
        }
    }
}

/// The date that `text` stands for: what the first supported format that
/// fits makes of it, or `None` where none fits.
pub open spec fn flexible_date(text: Seq<char>) -> Option<Ymd> {
    first_parse(text, 0)
}

/// Reads a date written in one of the supported formats. The formats are
/// tried in their fixed order; the first that fits decides the date.
pub fn parse_date_flexible(date_str: &str) -> (parsed: Result<Date, HolidayError>)
    ensures
        match parsed {
            Ok(date) => flexible_date(date_str@) == Some(date@) && date@.is_valid(),
            Err(e) => e == HolidayError::Parse && flexible_date(date_str@) is None,
        },
{
    let mut index: usize = 0;
    while index < DATE_FORMAT_COUNT
        invariant
            index <= DATE_FORMAT_COUNT,
            flexible_date(date_str@) == first_parse(date_str@, index as int),
        decreases DATE_FORMAT_COUNT - index,
    {
        if let Some(format) = date_format(index) {
            if let Some(date) = parse_with_format(date_str, format) {
                return Ok(date);
            }
        }
        index = index + 1;
    }
    Err(HolidayError::Parse)
}

/// The order of the formats decides: where the format at `index` fits and
/// none before it does, the date is the one that this format gives.
pub proof fn lemma_first_fitting_format_decides(text: Seq<char>, index: int)
    requires
        0 <= index < supported_formats().len(),
        parsed_date(text, supported_formats()[index]) is Some,
        forall|earlier: int|
            0 <= earlier < index ==> parsed_date(text, #[trigger] supported_formats()[earlier])
                is None,
    ensures
        flexible_date(text) == parsed_date(text, supported_formats()[index]),
{
    lemma_first_parse_skips(text, 0, index);
}

/// A date that `flexible_date` gives is given by one of the formats, and no
/// earlier format fits; where it gives none, no format fits.
pub proof fn lemma_flexible_date_comes_from_a_format(text: Seq<char>)
    ensures
        match flexible_date(text) {
            Some(date) => exists|index: int|
                0 <= index < supported_formats().len() && parsed_date(
                    text,
                    #[trigger] supported_formats()[index],
                ) == Some(date) && forall|earlier: int|
                    0 <= earlier < index ==> parsed_date(
                        text,
                        #[trigger] supported_formats()[earlier],
                    ) is None,
            None => forall|index: int|
                0 <= index < supported_formats().len() ==> parsed_date(
                    text,
                    #[trigger] supported_formats()[index],
                ) is None,
        },
{
    lemma_first_parse_origin(text, 0);
}

proof fn lemma_first_parse_skips(text: Seq<char>, from: int, index: int)
    requires
        0 <= from <= index < supported_formats().len(),
        forall|earlier: int|
            from <= earlier < index ==> parsed_date(text, #[trigger] supported_formats()[earlier])
                is None,
    ensures
        first_parse(text, from) == first_parse(text, index),
    decreases index - from,
{
    if from < index {
        lemma_first_parse_skips(text, from + 1, index);
    }
}

proof fn lemma_first_parse_origin(text: Seq<char>, from: int)
    requires
        0 <= from <= supported_formats().len(),
    ensures
        match first_parse(text, from) {
            Some(date) => exists|index: int|
                from <= index < supported_formats().len() && parsed_date(
                    text,
                    #[trigger] supported_formats()[index],
                ) == Some(date) && forall|earlier: int|
                    from <= earlier < index ==> parsed_date(
                        text,
                        #[trigger] supported_formats()[earlier],
                    ) is None,
            None => forall|index: int|
                from <= index < supported_formats().len() ==> parsed_date(
                    text,
                    #[trigger] supported_formats()[index],
                ) is None,
        },
    decreases supported_formats().len() - from,
{
    if from < supported_formats().len() {
        if parsed_date(text, supported_formats()[from]) is None {
            lemma_first_parse_origin(text, from + 1);
            if first_parse(text, from + 1) is Some {
                let date = first_parse(text, from + 1)->0;
                let index = choose|index: int|
                    from + 1 <= index < supported_formats().len() && parsed_date(
                        text,
                        #[trigger] supported_formats()[index],
                    ) == Some(date) && forall|earlier: int|
                        from + 1 <= earlier < index ==> parsed_date(
                            text,
                            #[trigger] supported_formats()[earlier],
                        ) is None;
                assert(from <= index < supported_formats().len());
            }
        }
    }
}

} // verus!
