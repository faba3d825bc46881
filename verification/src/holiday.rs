//! Queries against the holiday table: is a day a holiday, and which holidays
//! lie in a range of days.

use crate::date::{lemma_successor_is_adjacent, lemma_successor_is_later, Date, Ymd};
use crate::date_parse::{flexible_date, parse_date_flexible};
use crate::date_text::lemma_iso_key_is_injective;
use crate::error::HolidayError;
use crate::holiday_map::HolidayMap;
use vstd::prelude::*;

verus! {

/// What the table says of `day`: whether it is a holiday, and the name of
/// the holiday if it is one.
pub open spec fn holiday_entry(table: Map<Seq<char>, Seq<char>>, day: Ymd) -> (
    bool,
    Option<Seq<char>>,
) {
    if table.contains_key(day.iso_key()) {
        (true, Some(table[day.iso_key()]))
    } else {
        (false, None)
    }
}

/// The holidays of the table on the days from `first` to `last`, both
/// included, found by going through the days one by one: each holiday with
/// its day and its name.
pub open spec fn holidays_from(table: Map<Seq<char>, Seq<char>>, first: Ymd, last: Ymd) -> Seq<
    (Ymd, Seq<char>),
>
    decreases last.year - first.year, 12 - first.month, 31 - first.day,
{
    if first.is_valid() && last.is_valid() && first.at_most(last) {
        let today = if table.contains_key(first.iso_key()) {
            seq![(first, table[first.iso_key()])]
        } else {
            seq![]
        };
        if first == last {
            today
        } else {
            today + holidays_from(table, first.successor(), last)
        }
    } else {
        seq![]
    }
}

/// A list of holidays as it is handed out: each day as its canonical key,
/// with the name.
pub open spec fn listing(holidays: Seq<(Ymd, Seq<char>)>) -> Seq<(Seq<char>, Seq<char>)> {
    Seq::new(holidays.len(), |i: int| (holidays[i].0.iso_key(), holidays[i].1))
}

/// The answer to a range query whose bounds were read as `start` and `end`
/// (`None` for a bound that has none of the supported formats).
pub open spec fn range_answer(
    table: Map<Seq<char>, Seq<char>>,
    start: Option<Ymd>,
    end: Option<Ymd>,
) -> Result<Seq<(Seq<char>, Seq<char>)>, HolidayError> {
    match (start, end) {
        (Some(first), Some(last)) => if last.precedes(first) {
            Err(HolidayError::InvalidRange)
        } else {
            Ok(listing(holidays_from(table, first, last)))
        },
        _ => Err(HolidayError::Parse),
    }
}

/// The answer to a point query whose date was read as `day`.
pub open spec fn point_answer(table: Map<Seq<char>, Seq<char>>, day: Option<Ymd>) -> Result<
    (bool, Option<Seq<char>>),
    HolidayError,
> {
    match day {
        Some(d) => Ok(holiday_entry(table, d)),
        None => Err(HolidayError::Parse),
    }
}

/// A range query lists holidays of the table only, each on a day of the
/// range and under its own name, and lists them in strictly ascending order
/// of date, so that no day is listed twice.
pub proof fn lemma_range_is_ascending(table: Map<Seq<char>, Seq<char>>, first: Ymd, last: Ymd)
    requires
        first.is_valid(),
        last.is_valid(),
        first.at_most(last),
    ensures
        forall|i: int|
            0 <= i < holidays_from(table, first, last).len() ==> {
                let found = #[trigger] holidays_from(table, first, last)[i];
                &&& found.0.is_valid()
                &&& first.at_most(found.0)
                &&& found.0.at_most(last)
                &&& table.contains_key(found.0.iso_key())
                &&& found.1 == table[found.0.iso_key()]
            },
        forall|i: int, j: int|
            0 <= i < j < holidays_from(table, first, last).len() ==> (#[trigger] holidays_from(
                table,
                first,
                last,
            )[i]).0.precedes((#[trigger] holidays_from(table, first, last)[j]).0),
    decreases last.year - first.year, 12 - first.month, 31 - first.day,
{
    let all = holidays_from(table, first, last);
    if first != last {
        let next = first.successor();
        lemma_successor_is_adjacent(first, last);
        lemma_successor_is_later(first);
        lemma_range_is_ascending(table, next, last);
        let rest = holidays_from(table, next, last);
        let today: Seq<(Ymd, Seq<char>)> = if table.contains_key(first.iso_key()) {
            seq![(first, table[first.iso_key()])]
        } else {
            seq![]
        };
        assert(all == today + rest);
        assert forall|i: int| 0 <= i < all.len() implies {
            let found = #[trigger] all[i];
            &&& found.0.is_valid()
            &&& first.at_most(found.0)
            &&& found.0.at_most(last)
            &&& table.contains_key(found.0.iso_key())
            &&& found.1 == table[found.0.iso_key()]
        } by {
            if i >= today.len() {
                assert(all[i] == rest[i - today.len()]);
            }
        }
        assert forall|i: int, j: int| 0 <= i < j < all.len() implies (#[trigger] all[i]).0.precedes(
            (#[trigger] all[j]).0,
        ) by {
            assert(all[j] == rest[j - today.len()]);
            if i >= today.len() {
                assert(all[i] == rest[i - today.len()]);
            }
        }
    }
}

/// A range query misses no holiday: every day of the range that the table
/// holds is listed.
pub proof fn lemma_range_is_complete(
    table: Map<Seq<char>, Seq<char>>,
    first: Ymd,
    last: Ymd,
    day: Ymd,
)
    requires
        first.is_valid(),
        last.is_valid(),
        day.is_valid(),
        first.at_most(day),
        day.at_most(last),
        table.contains_key(day.iso_key()),
    ensures
        exists|i: int|
            0 <= i < holidays_from(table, first, last).len() && (#[trigger] holidays_from(
                table,
                first,
                last,
            )[i]).0 == day,
    decreases last.year - first.year, 12 - first.month, 31 - first.day,
{
    let all = holidays_from(table, first, last);
    if first == day {
        assert(all[0].0 == day);
    } else {
        let next = first.successor();
        lemma_successor_is_adjacent(first, day);
        lemma_successor_is_later(first);
        lemma_range_is_complete(table, next, last, day);
        let rest = holidays_from(table, next, last);
        let today: Seq<(Ymd, Seq<char>)> = if table.contains_key(first.iso_key()) {
            seq![(first, table[first.iso_key()])]
        } else {
            seq![]
        };
        assert(all == today + rest);
        let i = choose|i: int| 0 <= i < rest.len() && (#[trigger] rest[i]).0 == day;
        assert(all[today.len() + i] == rest[i]);
    }
}

/// A range of one day holds that day if it is a holiday, and nothing else.
pub proof fn lemma_range_of_one_day(table: Map<Seq<char>, Seq<char>>, day: Ymd)
    requires
        day.is_valid(),
    ensures
        holidays_from(table, day, day) == if table.contains_key(day.iso_key()) {
            seq![(day, table[day.iso_key()])]
        } else {
            Seq::<(Ymd, Seq<char>)>::empty()
        },
        holidays_from(table, day, day).len() == if table.contains_key(day.iso_key()) {
            1nat
        } else {
            0nat
        },
{
}

/// The list that a range query hands out holds no key twice.
pub proof fn lemma_listing_has_distinct_keys(
    table: Map<Seq<char>, Seq<char>>,
    first: Ymd,
    last: Ymd,
)
    requires
        first.is_valid(),
        last.is_valid(),
        first.at_most(last),
    ensures
        forall|i: int, j: int|
            0 <= i < j < listing(holidays_from(table, first, last)).len() ==> (#[trigger] listing(
                holidays_from(table, first, last),
            )[i]).0 != (#[trigger] listing(holidays_from(table, first, last))[j]).0,
{
    let all = holidays_from(table, first, last);
    lemma_range_is_ascending(table, first, last);
    assert forall|i: int, j: int| 0 <= i < j < listing(all).len() implies (#[trigger] listing(
        all,
    )[i]).0 != (#[trigger] listing(all)[j]).0 by {
        assert(all[i].0.precedes(all[j].0));
        if all[i].0.iso_key() == all[j].0.iso_key() {
            lemma_iso_key_is_injective(all[i].0, all[j].0);
        }
    }
}

/// Whether `date` is a holiday, and the name of the holiday if it is one.
pub fn holiday_on(table: &HolidayMap, date: Date) -> (found: (bool, Option<String>))
    ensures
        (found.0, found.1.deep_view()) == holiday_entry(table@, date@),
{
    let key = date.to_key();
    match table.get(key.as_str()) {
        Some(name) => (true, Some(name.clone())),
        None => (false, None),
    }
}

/// The holidays from `start` to `end`, both included, in ascending order of
/// date: each with the canonical key of its day and its name. Fails with
/// [`HolidayError::InvalidRange`] where `start` is after `end`.
pub fn holidays_between(table: &HolidayMap, start: Date, end: Date) -> (found: Result<
    Vec<(String, String)>,
    HolidayError,
>)
    ensures
        match found {
            Ok(list) => range_answer(table@, Some(start@), Some(end@)) == Ok::<
                Seq<(Seq<char>, Seq<char>)>,
                HolidayError,
            >(list.deep_view()),
            Err(e) => range_answer(table@, Some(start@), Some(end@)) == Err::<
                Seq<(Seq<char>, Seq<char>)>,
                HolidayError,
            >(e),
        },
{
    proof {
        use_type_invariant(&start);
        use_type_invariant(&end);
    }
    if end.is_before(&start) {
        return Err(HolidayError::InvalidRange);
    }
    let mut list: Vec<(String, String)> = Vec::new();
    let mut current = start;
    let ghost all = holidays_from(table@, start@, end@);
    let ghost mut done: Seq<(Ymd, Seq<char>)> = Seq::empty();
    assert(done + holidays_from(table@, current@, end@) =~= all);
    assert(list.deep_view() =~= listing(done));
    loop
        invariant_except_break
            current@.is_valid(),
            end@.is_valid(),
            current@.at_most(end@),
            done + holidays_from(table@, current@, end@) == all,
            list.deep_view() == listing(done),
        ensures
            list.deep_view() == listing(all),
        decreases end@.year - current@.year, 12 - current@.month, 31 - current@.day,
    {
        let key = current.to_key();
        let ghost listed = list.deep_view();
        let ghost before = done;
        if let Some(name) = table.get(key.as_str()) {
            let name = name.clone();
            proof {
                done = done.push((current@, name@));
            }
            list.push((key, name));
            assert(list.deep_view() =~= listed.push((current@.iso_key(), name@)));
            assert(list.deep_view() =~= listing(done));
        }
        if current.is_same_day(&end) {
            assert(done =~= before + holidays_from(table@, current@, end@));
            break;
        }
        proof {
            lemma_successor_is_adjacent(current@, end@);
            lemma_successor_is_later(current@);
            assert(done + holidays_from(table@, current@.successor(), end@) =~= before
                + holidays_from(table@, current@, end@));
        }
        match current.next_day() {
            Some(next) => {
                current = next;
            },
            None => {
                // Not reached: a day before `end` is not the last of all days.
                break;
            },
        }
    }
    Ok(list)
}

/// Whether the day written in `date` is a holiday, and the name of the
/// holiday if it is one. Fails with [`HolidayError::Parse`] where `date` has none of
/// the supported formats.
pub fn get_holiday(table: &HolidayMap, date: &str) -> (found: Result<
    (bool, Option<String>),
    HolidayError,
>)
    ensures
        match found {
            Ok(entry) => point_answer(table@, flexible_date(date@)) == Ok::<
                (bool, Option<Seq<char>>),
                HolidayError,
            >((entry.0, entry.1.deep_view())),
            Err(e) => point_answer(table@, flexible_date(date@)) == Err::<
                (bool, Option<Seq<char>>),
                HolidayError,
            >(e),
        },
{
    match parse_date_flexible(date) {
        Ok(day) => Ok(holiday_on(table, day)),
        Err(e) => Err(e),
    }
}

/// The holidays from the day written in `start_date` to the day written in
/// `end_date`, both included, in ascending order of date: each with the
/// canonical key of its day and its name. Fails with [`HolidayError::Parse`] where a
/// bound has none of the supported formats, and with [`HolidayError::InvalidRange`]
/// where the start is after the end.
pub fn get_holidays_in_range(table: &HolidayMap, start_date: &str, end_date: &str) -> (found:
    Result<Vec<(String, String)>, HolidayError>)
    ensures
        match found {
            Ok(list) => range_answer(
                table@,
                flexible_date(start_date@),
                flexible_date(end_date@),
            ) == Ok::<Seq<(Seq<char>, Seq<char>)>, HolidayError>(list.deep_view()),
            Err(e) => range_answer(table@, flexible_date(start_date@), flexible_date(end_date@))
                == Err::<Seq<(Seq<char>, Seq<char>)>, HolidayError>(e),
        },
{
    let start = match parse_date_flexible(start_date) {
        Ok(day) => day,
        Err(e) => {
            return Err(e);
        },
    };
    let end = match parse_date_flexible(end_date) {
        Ok(day) => day,
        Err(e) => {
            return Err(e);
        },
    };
    holidays_between(table, start, end)
}

} // verus!
