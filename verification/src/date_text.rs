//! The text forms of a date: the canonical key `YYYY-MM-DD`, under which the
//! holiday table files a day, and the compact form `YYYYMMDD`.
//!
//! Years 0 to 9999 are written with four digits. Any other year is written
//! with its sign and at least four digits.

use crate::date::{Date, Ymd};
use vstd::prelude::*;
use vstd::string::StringExecFns;

verus! {

/// The character of the decimal digit `d` (0 to 9).
pub open spec fn digit_char(d: int) -> char {
    if d == 0 {
        '0'
    } else if d == 1 {
        '1'
    } else if d == 2 {
        '2'
    } else if d == 3 {
        '3'
    } else if d == 4 {
        '4'
    } else if d == 5 {
        '5'
    } else if d == 6 {
        '6'
    } else if d == 7 {
        '7'
    } else if d == 8 {
        '8'
    } else {
        '9'
    }
}

/// `n` (0 to 99) in two digits.
pub open spec fn two_digits(n: int) -> Seq<char> {
    seq![digit_char(n / 10), digit_char(n % 10)]
}

/// `n` (0 to 9999) in four digits.
pub open spec fn four_digits(n: int) -> Seq<char> {
    two_digits(n / 100) + two_digits(n % 100)
}

/// `n` (0 to 999999) in as many digits as it needs, and at least four.
pub open spec fn four_or_more_digits(n: int) -> Seq<char> {
    if n <= 9999 {
        four_digits(n)
    } else if n <= 99999 {
        seq![digit_char(n / 10000)] + four_digits(n % 10000)
    } else {
        two_digits(n / 10000) + four_digits(n % 10000)
    }
}

/// A year as text: four digits for 0 to 9999, else a sign and the digits.
pub open spec fn year_text(year: int) -> Seq<char> {
    if 0 <= year <= 9999 {
        four_digits(year)
    } else if year < 0 {
        seq!['-'] + four_or_more_digits(-year)
    } else {
        seq!['+'] + four_or_more_digits(year)
    }
}

impl Ymd {
    /// The canonical key of the date: year, month and day, joined by `-`.
    pub open spec fn iso_key(self) -> Seq<char> {
        year_text(self.year) + seq!['-'] + two_digits(self.month) + seq!['-'] + two_digits(
            self.day,
        )
    }

    /// The compact form of the date: year, month and day with nothing between.
    pub open spec fn compact_key(self) -> Seq<char> {
        year_text(self.year) + two_digits(self.month) + two_digits(self.day)
    }
}

/// Different digits have different characters, and none is a sign.
pub proof fn lemma_digit_char_is_injective(a: int, b: int)
    requires
        0 <= a <= 9,
        0 <= b <= 9,
    ensures
        digit_char(a) == digit_char(b) ==> a == b,
        digit_char(a) != '-',
        digit_char(a) != '+',
{
}

/// Two numbers below 100 with the same two digits are the same number.
proof fn lemma_two_digits_is_injective(a: int, b: int)
    requires
        0 <= a <= 99,
        0 <= b <= 99,
        two_digits(a) == two_digits(b),
    ensures
        a == b,
{
    assert(two_digits(a)[0] == digit_char(a / 10));
    assert(two_digits(b)[0] == digit_char(b / 10));
    assert(two_digits(a)[1] == digit_char(a % 10));
    assert(two_digits(b)[1] == digit_char(b % 10));
    lemma_digit_char_is_injective(a / 10, b / 10);
    lemma_digit_char_is_injective(a % 10, b % 10);
}

/// Two numbers below 10000 with the same four digits are the same number.
proof fn lemma_four_digits_is_injective(a: int, b: int)
    requires
        0 <= a <= 9999,
        0 <= b <= 9999,
        four_digits(a) == four_digits(b),
    ensures
        a == b,
{
    assert(four_digits(a).subrange(0, 2) =~= two_digits(a / 100));
    assert(four_digits(b).subrange(0, 2) =~= two_digits(b / 100));
    assert(four_digits(a).subrange(2, 4) =~= two_digits(a % 100));
    assert(four_digits(b).subrange(2, 4) =~= two_digits(b % 100));
    lemma_two_digits_is_injective(a / 100, b / 100);
    lemma_two_digits_is_injective(a % 100, b % 100);
}

/// How many digits a number below a million is written with, and where its
/// parts stand.
proof fn lemma_four_or_more_digits_shape(n: int)
    requires
        0 <= n <= 999999,
    ensures
        n <= 9999 ==> four_or_more_digits(n).len() == 4,
        9999 < n <= 99999 ==> four_or_more_digits(n).len() == 5 && four_or_more_digits(n)[0]
            == digit_char(n / 10000) && four_or_more_digits(n).subrange(1, 5) == four_digits(
            n % 10000,
        ),
        99999 < n ==> four_or_more_digits(n).len() == 6 && four_or_more_digits(n).subrange(0, 2)
            == two_digits(n / 10000) && four_or_more_digits(n).subrange(2, 6) == four_digits(
            n % 10000,
        ),
{
    let text = four_or_more_digits(n);
    if n <= 9999 {
    } else if n <= 99999 {
        assert(text.subrange(1, 5) =~= four_digits(n % 10000));
    } else {
        assert(text.subrange(0, 2) =~= two_digits(n / 10000));
        assert(text.subrange(2, 6) =~= four_digits(n % 10000));
    }
}

/// Two numbers below a million with the same digits are the same number.
proof fn lemma_four_or_more_digits_is_injective(a: int, b: int)
    requires
        0 <= a <= 999999,
        0 <= b <= 999999,
        four_or_more_digits(a) == four_or_more_digits(b),
    ensures
        a == b,
{
    lemma_four_or_more_digits_shape(a);
    lemma_four_or_more_digits_shape(b);
    if a <= 9999 {
        lemma_four_digits_is_injective(a, b);
    } else if a <= 99999 {
        lemma_digit_char_is_injective(a / 10000, b / 10000);
        lemma_four_digits_is_injective(a % 10000, b % 10000);
    } else {
        lemma_two_digits_is_injective(a / 10000, b / 10000);
        lemma_four_digits_is_injective(a % 10000, b % 10000);
    }
}

/// How a year is written: with four digits and no sign from 0 to 9999, else
/// with its sign before the digits.
proof fn lemma_year_text_shape(year: int)
    requires
        -999999 <= year <= 999999,
    ensures
        0 <= year <= 9999 ==> year_text(year).len() == 4 && year_text(year)[0] != '-' && year_text(
            year,
        )[0] != '+',
        year < 0 ==> year_text(year).len() >= 5 && year_text(year)[0] == '-' && year_text(
            year,
        ).subrange(1, year_text(year).len() as int) == four_or_more_digits(-year),
        year > 9999 ==> year_text(year).len() >= 5 && year_text(year)[0] == '+' && year_text(
            year,
        ).subrange(1, year_text(year).len() as int) == four_or_more_digits(year),
{
    let text = year_text(year);
    if 0 <= year <= 9999 {
        assert(text[0] == digit_char(year / 100 / 10));
        lemma_digit_char_is_injective(year / 100 / 10, 0);
    } else if year < 0 {
        lemma_four_or_more_digits_shape(-year);
        assert(text.subrange(1, text.len() as int) =~= four_or_more_digits(-year));
    } else {
        lemma_four_or_more_digits_shape(year);
        assert(text.subrange(1, text.len() as int) =~= four_or_more_digits(year));
    }
}

/// Different years are written differently.
pub proof fn lemma_year_text_is_injective(a: int, b: int)
    requires
        -999999 <= a <= 999999,
        -999999 <= b <= 999999,
        year_text(a) == year_text(b),
    ensures
        a == b,
{
    lemma_year_text_shape(a);
    lemma_year_text_shape(b);
    if 0 <= a <= 9999 {
        lemma_four_digits_is_injective(a, b);
    } else if a < 0 {
        lemma_four_or_more_digits_is_injective(-a, -b);
    } else {
        lemma_four_or_more_digits_is_injective(a, b);
    }
}

/// The canonical key identifies the day: two valid dates with the same key
/// are the same date.
pub proof fn lemma_iso_key_is_injective(a: Ymd, b: Ymd)
    requires
        a.is_valid(),
        b.is_valid(),
        a.iso_key() == b.iso_key(),
    ensures
        a == b,
{
    let x = a.iso_key();
    let y = b.iso_key();
    let n = x.len() as int;
    assert(x.subrange(0, n - 6) =~= year_text(a.year));
    assert(y.subrange(0, n - 6) =~= year_text(b.year));
    assert(x.subrange(n - 5, n - 3) =~= two_digits(a.month));
    assert(y.subrange(n - 5, n - 3) =~= two_digits(b.month));
    assert(x.subrange(n - 2, n) =~= two_digits(a.day));
    assert(y.subrange(n - 2, n) =~= two_digits(b.day));
    lemma_year_text_is_injective(a.year, b.year);
    lemma_two_digits_is_injective(a.month, b.month);
    lemma_two_digits_is_injective(a.day, b.day);
}

/// The one-character string of the digit `d`.
fn digit_str(d: u32) -> (text: &'static str)
    requires
        d <= 9,
    ensures
        text@ == seq![digit_char(d as int)],
{
    proof {
        reveal_strlit("0");
        reveal_strlit("1");
        reveal_strlit("2");
        reveal_strlit("3");
        reveal_strlit("4");
        reveal_strlit("5");
        reveal_strlit("6");
        reveal_strlit("7");
        reveal_strlit("8");
        reveal_strlit("9");
    }
    let text: &'static str = if d == 0 {
        "0"
    } else if d == 1 {
        "1"
    } else if d == 2 {
        "2"
    } else if d == 3 {
        "3"
    } else if d == 4 {
        "4"
    } else if d == 5 {
        "5"
    } else if d == 6 {
        "6"
    } else if d == 7 {
        "7"
    } else if d == 8 {
        "8"
    } else {
        "9"
    };
    assert(text@ =~= seq![digit_char(d as int)]);
    text
}

/// Appends `n` in two digits.
fn push_two_digits(out: &mut String, n: u32)
    requires
        n <= 99,
    ensures
        final(out)@ == old(out)@ + two_digits(n as int),
{
    out.append(digit_str(n / 10));
    out.append(digit_str(n % 10));
    assert(out@ =~= old(out)@ + two_digits(n as int));
}

/// Appends `n` in four digits.
fn push_four_digits(out: &mut String, n: u32)
    requires
        n <= 9999,
    ensures
        final(out)@ == old(out)@ + four_digits(n as int),
{
    push_two_digits(out, n / 100);
    push_two_digits(out, n % 100);
    assert(out@ =~= old(out)@ + four_digits(n as int));
}

/// Appends the text of `year`.
fn push_year(out: &mut String, year: i32)
    requires
        -999999 <= year <= 999999,
    ensures
        final(out)@ == old(out)@ + year_text(year as int),
{
    if 0 <= year && year <= 9999 {
        push_four_digits(out, year as u32);
    } else {
        let magnitude: u32 = if year < 0 {
            proof {
                reveal_strlit("-");
            }
            out.append("-");
            (-year) as u32
        } else {
            proof {
                reveal_strlit("+");
            }
            out.append("+");
            year as u32
        };
        if magnitude > 99999 {
            push_two_digits(out, magnitude / 10000);
        } else if magnitude > 9999 {
            out.append(digit_str(magnitude / 10000));
        }
        push_four_digits(out, magnitude % 10000);
        assert(out@ =~= old(out)@ + year_text(year as int));
    }
}

impl Date {
    /// The canonical key of the date, such as `2023-01-01`.
    pub fn to_key(&self) -> (key: String)
        ensures
            key@ == self@.iso_key(),
    {
        let mut key = String::new();
        push_year(&mut key, self.year());
        proof {
            reveal_strlit("-");
        }
        key.append("-");
        push_two_digits(&mut key, self.month());
        key.append("-");
        push_two_digits(&mut key, self.day());
        assert(key@ =~= self@.iso_key());
        key
    }

    /// The compact form of the date, such as `20230101`.
    pub fn to_compact(&self) -> (text: String)
        ensures
            text@ == self@.compact_key(),
    {
        let mut text = String::new();
        push_year(&mut text, self.year());
        push_two_digits(&mut text, self.month());
        push_two_digits(&mut text, self.day());
        assert(text@ =~= self@.compact_key());
        text
    }
}

} // verus!
