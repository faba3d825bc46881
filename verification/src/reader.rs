//! Reading the published holiday table: a CSV file in Shift_JIS whose rows
//! hold a date as `YYYY/MM/DD` in the first field and the name of the holiday
//! in the second.

use crate::date_parse::{parse_with_format, parsed_date};
use crate::error::HolidayError;
use crate::holiday_map::HolidayMap;
use vstd::prelude::*;

verus! {

/// The strftime pattern of the dates in the published table.
pub const SOURCE_DATE_FORMAT: &'static str = "%Y/%m/%d";

/// The largest input that [`get_holidays`] decodes. The decoder sizes its
/// buffer at three times the input and a little more, rounded up to a power
/// of two, which has to fit.
pub const MAX_SOURCE_BYTES: usize = usize::MAX / 8;

/// What `encoding_rs::SHIFT_JIS.decode` makes of `bytes`: the text, and
/// whether any byte sequence was malformed and replaced.
pub uninterp spec fn shift_jis_decoded(bytes: Seq<u8>) -> (Seq<char>, bool);

/// What a `csv::Reader` that takes every row as data and allows rows of any
/// length reads from `text`: the rows, each a list of fields, or `None` where
/// it reports an error.
pub uninterp spec fn csv_records(text: Seq<char>) -> Option<Seq<Seq<Seq<char>>>>;

/// The error of the `csv` crate, `csv::Error`. Nothing is known of what it
/// holds; it is only told apart from a success.
#[verifier::external_type_specification]
#[verifier::external_body]
pub struct ExCsvError(csv::Error);

/// Calls `encoding_rs::SHIFT_JIS.decode`.
///
/// Trusted: the result is the one named by [`shift_jis_decoded`]. The input
/// is kept so short that the size of the decoder's buffer, which it computes
/// before it starts, cannot overflow.
#[verifier::external_body]
fn decode_shift_jis(bytes: &[u8]) -> (decoded: (String, bool))
    requires
        bytes@.len() <= MAX_SOURCE_BYTES,
    ensures
        (decoded.0@, decoded.1) == shift_jis_decoded(bytes@),
{
    let (text, _, malformed) = encoding_rs::SHIFT_JIS.decode(bytes);
    (text.into_owned(), malformed)
}

/// Reads all records of `text` with a `csv::Reader` built without headers and
/// with flexible row lengths, and copies each field into a `String`.
///
/// Trusted: the result is the one named by [`csv_records`].
#[verifier::external_body]
fn read_csv_records(text: &str) -> (rows: Result<Vec<Vec<String>>, csv::Error>)
    ensures
        match rows {
            Ok(r) => csv_records(text@) == Some(r.deep_view()),
            Err(_) => csv_records(text@) is None,
        },
{
    let mut reader = csv::ReaderBuilder::new().has_headers(false).flexible(true).from_reader(
        text.as_bytes(),
    );
    reader.records().map(|row| row.map(|r| r.iter().map(String::from).collect())).collect()
}

/// The entry that a row gives: the canonical key of the date in its first
/// field with the name in its second. A row with fewer than two fields, or
/// whose first field is no date, gives none.
pub open spec fn row_entry(row: Seq<Seq<char>>) -> Option<(Seq<char>, Seq<char>)> {
    if row.len() >= 2 {
        match parsed_date(row[0], SOURCE_DATE_FORMAT@) {
            Some(day) => Some((day.iso_key(), row[1])),
            None => None,
        }
    } else {
        None
    }
}

/// Whether a row gives an entry under `key`.
pub open spec fn gives_key(row: Seq<Seq<char>>, key: Seq<char>) -> bool {
    row_entry(row) matches Some(entry) && entry.0 == key
}

/// The table that a list of rows gives: the entries of the rows, a later
/// row replacing what an earlier row filed under the same key.
pub open spec fn table_of_rows(rows: Seq<Seq<Seq<char>>>) -> Map<Seq<char>, Seq<char>>
    decreases rows.len(),
{
    if rows.len() == 0 {
        Map::empty()
    } else {
        let earlier = table_of_rows(rows.drop_last());
        match row_entry(rows.last()) {
            Some(entry) => earlier.insert(entry.0, entry.1),
            None => earlier,
        }
    }
}

/// The table that a CSV text gives, or [`HolidayError::Parse`] where the text is
/// not well-formed CSV. The empty text gives the empty table.
pub open spec fn table_of_text(text: Seq<char>) -> Result<Map<Seq<char>, Seq<char>>, HolidayError> {
    if text.len() == 0 {
        Ok(Map::empty())
    } else {
        match csv_records(text) {
            Some(rows) => Ok(table_of_rows(rows)),
            None => Err(HolidayError::Parse),
        }
    }
}

/// The table that the bytes of the published file give, or [`HolidayError::Parse`]
/// where they are not valid Shift_JIS or not well-formed CSV. No bytes give
/// the empty table.
pub open spec fn table_of_bytes(bytes: Seq<u8>) -> Result<Map<Seq<char>, Seq<char>>, HolidayError> {
    if bytes.len() == 0 {
        Ok(Map::empty())
    } else if bytes.len() > MAX_SOURCE_BYTES || shift_jis_decoded(bytes).1 {
        Err(HolidayError::Parse)
    } else {
        table_of_text(shift_jis_decoded(bytes).0)
    }
}

/// The table holds a key exactly where some row gives an entry under it.
pub proof fn lemma_table_of_rows_keys(rows: Seq<Seq<Seq<char>>>, key: Seq<char>)
    ensures
        table_of_rows(rows).contains_key(key) <==> exists|i: int|
            0 <= i < rows.len() && gives_key(#[trigger] rows[i], key),
    decreases rows.len(),
{
    if rows.len() > 0 {
        let front = rows.drop_last();
        lemma_table_of_rows_keys(front, key);
        if table_of_rows(rows).contains_key(key) {
            if gives_key(rows.last(), key) {
                assert(gives_key(rows[rows.len() - 1], key));
            } else {
                let i = choose|i: int| 0 <= i < front.len() && gives_key(#[trigger] front[i], key);
                assert(rows[i] == front[i]);
            }
        }
        if exists|i: int| 0 <= i < rows.len() && gives_key(#[trigger] rows[i], key) {
            let i = choose|i: int| 0 <= i < rows.len() && gives_key(#[trigger] rows[i], key);
            if i < rows.len() - 1 {
                assert(front[i] == rows[i]);
            }
        }
    }
}

/// The last row wins: where the row at `index` files `name` under `key` and
/// no later row files anything under `key`, the table gives `key` that name.
pub proof fn lemma_last_row_wins(
    rows: Seq<Seq<Seq<char>>>,
    index: int,
    key: Seq<char>,
    name: Seq<char>,
)
    requires
        0 <= index < rows.len(),
        row_entry(rows[index]) == Some((key, name)),
        forall|later: int| index < later < rows.len() ==> !gives_key(#[trigger] rows[later], key),
    ensures
        table_of_rows(rows).contains_key(key),
        table_of_rows(rows)[key] == name,
    decreases rows.len(),
{
    if index < rows.len() - 1 {
        let front = rows.drop_last();
        assert(front[index] == rows[index]);
        assert(!gives_key(rows[rows.len() - 1], key));
        assert forall|later: int| index < later < front.len() implies !gives_key(
            #[trigger] front[later],
            key,
        ) by {
            assert(front[later] == rows[later]);
        }
        lemma_last_row_wins(front, index, key, name);
    }
}

/// Builds the table from rows that were split into fields. For each row with
/// at least two fields whose first field is a date as `YYYY/MM/DD`, the name
/// in the second field is filed under the canonical key of the date; a later
/// row replaces an earlier one. Other rows are passed over.
pub fn table_from_rows(rows: &Vec<Vec<String>>) -> (table: HolidayMap)
    ensures
        table@ == table_of_rows(rows.deep_view()),
{
    let mut table = HolidayMap::new();
    let mut index: usize = 0;
    assert(rows.deep_view().take(0) =~= Seq::empty());
    while index < rows.len()
        invariant
            index <= rows.len(),
            table@ == table_of_rows(rows.deep_view().take(index as int)),
        decreases rows.len() - index,
    {
        let row = &rows[index];
        proof {
            let all = rows.deep_view();
            assert(all.take(index + 1).drop_last() =~= all.take(index as int));
            assert(all.take(index + 1).last() == all[index as int]);
            assert(all[index as int] == row.deep_view());
        }
        if row.len() >= 2 {
            assert(row.deep_view()[0] == row@[0]@);
            assert(row.deep_view()[1] == row@[1]@);
            if let Some(day) = parse_with_format(row[0].as_str(), SOURCE_DATE_FORMAT) {
                table.insert(day.to_key(), row[1].clone());
            }
        }
        index = index + 1;
    }
    assert(rows.deep_view().take(rows.len() as int) =~= rows.deep_view());
    table
}

/// Reads the holiday table from CSV text. Rows that hold no date are passed
/// over, so a header row does no harm. Fails with [`HolidayError::Parse`] where the
/// text is not well-formed CSV.
pub fn parse_csv(csv_content: &str) -> (table: Result<HolidayMap, HolidayError>)
    ensures
        match table {
            Ok(t) => table_of_text(csv_content@) == Ok::<
                Map<Seq<char>, Seq<char>>,
                HolidayError,
            >(t@),
            Err(e) => table_of_text(csv_content@) == Err::<
                Map<Seq<char>, Seq<char>>,
                HolidayError,
            >(e),
        },
{
    if csv_content.is_empty() {
        return Ok(HolidayMap::new());
    }
    match read_csv_records(csv_content) {
        Ok(rows) => Ok(table_from_rows(&rows)),
        Err(_) => Err(HolidayError::Parse),
    }
}

/// Reads the holiday table from the bytes of the published file. Fails with
/// [`HolidayError::Parse`] where the bytes are not valid Shift_JIS or the text is
/// not well-formed CSV.
pub fn get_holidays(raw: &[u8]) -> (table: Result<HolidayMap, HolidayError>)
    ensures
        match table {
            Ok(t) => table_of_bytes(raw@) == Ok::<Map<Seq<char>, Seq<char>>, HolidayError>(t@),
            Err(e) => table_of_bytes(raw@) == Err::<Map<Seq<char>, Seq<char>>, HolidayError>(e),
        },
{
    if raw.len() == 0 {
        return Ok(HolidayMap::new());
    }
    if raw.len() > MAX_SOURCE_BYTES {
        return Err(HolidayError::Parse);
    }
    let (text, malformed) = decode_shift_jis(raw);
    if malformed {
        return Err(HolidayError::Parse);
    }
    parse_csv(text.as_str())
}

} // verus!
