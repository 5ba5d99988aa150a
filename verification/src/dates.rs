//! Calendar dates. Rows and filters carry dates as ISO `YYYY-MM-DD` strings;
//! date bounds compare as calendar dates, never as raw strings, so the
//! library parses strictly (correct field widths, month and day ranges,
//! leap-year rule) and treats anything else as not a date.
//!
//! Display formatting (`dd.mm.yyyy`) follows the report exports: the lenient
//! path goes through chrono's parser, the strict path (`iso_to_de`) merely
//! rearranges the ISO fields.

use vstd::prelude::*;
use vstd::string::StrSliceExecFns;
use vstd::string::StringExecFns;
use chrono::Datelike;
use crate::amounts::{digit_char, spec_digits};

verus! {

/// A calendar day, already validated: `m` in `1..=12`, `d` within `m`'s
/// length in year `y`.
#[derive(Clone, Copy, PartialEq, Eq, Structural, Debug)]
pub struct DateYmd {
    pub y: u32,
    pub m: u32,
    pub d: u32,
}

pub open spec fn is_digit(c: char) -> bool {
    48 <= c as int <= 57
}

pub open spec fn digit_val(c: char) -> int {
    c as int - 48
}

pub open spec fn spec_leap_year(y: int) -> bool {
    y % 4 == 0 && (y % 100 != 0 || y % 400 == 0)
}

pub open spec fn spec_days_in_month(y: int, m: int) -> int {
    if m == 1 || m == 3 || m == 5 || m == 7 || m == 8 || m == 10 || m == 12 {
        31
    } else if m == 4 || m == 6 || m == 9 || m == 11 {
        30
    } else if m == 2 {
        if spec_leap_year(y) {
            29
        } else {
            28
        }
    } else {
        0
    }
}

/// Strict parse of an ISO `YYYY-MM-DD` day: exactly ten characters, digits in
/// the digit positions, dashes between, and a valid calendar day.
pub open spec fn spec_parse_date(s: Seq<char>) -> Option<DateYmd> {
    if s.len() == 10 && s[4] == '-' && s[7] == '-' && is_digit(s[0]) && is_digit(s[1]) && is_digit(
        s[2],
    ) && is_digit(s[3]) && is_digit(s[5]) && is_digit(s[6]) && is_digit(s[8]) && is_digit(s[9]) {
        let y = digit_val(s[0]) * 1000 + digit_val(s[1]) * 100 + digit_val(s[2]) * 10 + digit_val(
            s[3],
        );
        let m = digit_val(s[5]) * 10 + digit_val(s[6]);
        let d = digit_val(s[8]) * 10 + digit_val(s[9]);
        if 1 <= m <= 12 && 1 <= d <= spec_days_in_month(y, m) {
            Some(DateYmd { y: y as u32, m: m as u32, d: d as u32 })
        } else {
            None
        }
    } else {
        None
    }
}

fn is_digit_exec(c: char) -> (r: bool)
    ensures
        r == is_digit(c),
{
    48 <= c as u32 && c as u32 <= 57
}

/// Parses a strict ISO `YYYY-MM-DD` day, `None` for anything else.
pub fn parse_iso_date(s: &str) -> (r: Option<DateYmd>)
    ensures
        r == spec_parse_date(s@),
{
    if s.unicode_len() != 10 {
        return None;
    }
    if s.get_char(4) != '-' || s.get_char(7) != '-' {
        return None;
    }
    let c0 = s.get_char(0);
    let c1 = s.get_char(1);
    let c2 = s.get_char(2);
    let c3 = s.get_char(3);
    let c5 = s.get_char(5);
    let c6 = s.get_char(6);
    let c8 = s.get_char(8);
    let c9 = s.get_char(9);
    if !(is_digit_exec(c0) && is_digit_exec(c1) && is_digit_exec(c2) && is_digit_exec(c3)
        && is_digit_exec(c5) && is_digit_exec(c6) && is_digit_exec(c8) && is_digit_exec(c9)) {
        return None;
    }
    let y: u32 = (c0 as u32 - 48) * 1000 + (c1 as u32 - 48) * 100 + (c2 as u32 - 48) * 10 + (
    c3 as u32 - 48);
    let m: u32 = (c5 as u32 - 48) * 10 + (c6 as u32 - 48);
    let d: u32 = (c8 as u32 - 48) * 10 + (c9 as u32 - 48);
    if 1 <= m && m <= 12 && 1 <= d && d <= days_in_month(y, m) {
        Some(DateYmd { y, m, d })
    } else {
        None
    }
}

fn days_in_month(y: u32, m: u32) -> (r: u32)
    ensures
        r as int == spec_days_in_month(y as int, m as int),
{
    if m == 1 || m == 3 || m == 5 || m == 7 || m == 8 || m == 10 || m == 12 {
        31
    } else if m == 4 || m == 6 || m == 9 || m == 11 {
        30
    } else if m == 2 {
        if y % 4 == 0 && (y % 100 != 0 || y % 400 == 0) {
            29
        } else {
            28
        }
    } else {
        0
    }
}

/// Strict order on calendar days: by year, then month, then day.
pub open spec fn date_lt(a: DateYmd, b: DateYmd) -> bool {
    a.y < b.y || (a.y == b.y && (a.m < b.m || (a.m == b.m && a.d < b.d)))
}

pub open spec fn date_le(a: DateYmd, b: DateYmd) -> bool {
    a == b || date_lt(a, b)
}

/// Inclusive comparison of two calendar days.
pub fn date_le_exec(a: &DateYmd, b: &DateYmd) -> (r: bool)
    ensures
        r == date_le(*a, *b),
{
    if a.y != b.y {
        a.y < b.y
    } else if a.m != b.m {
        a.m < b.m
    } else {
        a.d <= b.d
    }
}

/// Strict comparison of two calendar days.
pub fn date_lt_exec(a: &DateYmd, b: &DateYmd) -> (r: bool)
    ensures
        r == date_lt(*a, *b),
{
    if a.y != b.y {
        a.y < b.y
    } else if a.m != b.m {
        a.m < b.m
    } else {
        a.d < b.d
    }
}

/// `iso_to_de`'s result: the three ISO fields rearranged as `DD.MM.YYYY`
/// when the text is long enough to hold them, the text itself otherwise.
pub open spec fn spec_iso_to_de(s: Seq<char>) -> Seq<char> {
    if s.len() >= 10 {
        s.subrange(8, 10) + seq!['.'] + s.subrange(5, 7) + seq!['.'] + s.subrange(0, 4)
    } else {
        s
    }
}

/// Rearranges an ISO `YYYY-MM-DD` text as `DD.MM.YYYY` without validating
/// the fields; shorter texts come back unchanged.
pub fn iso_to_de(iso: &str) -> (r: String)
    ensures
        r@ == spec_iso_to_de(iso@),
{
    if iso.unicode_len() >= 10 {
        let mut s = iso.substring_char(8, 10).to_owned();
        proof {
            reveal_strlit(".");
        }
        s.append(".");
        s.append(iso.substring_char(5, 7));
        s.append(".");
        s.append(iso.substring_char(0, 4));
        proof {
            assert(s@ =~= spec_iso_to_de(iso@));
        }
        s
    } else {
        iso.to_owned()
    }
}

/// What chrono's `NaiveDate::parse_from_str` with format `%Y-%m-%d` parses
/// out of a text, as `(year, month, day)`: a function of the characters
/// alone.
pub uninterp spec fn chrono_ymd(s: Seq<char>) -> Option<(i32, u32, u32)>;

/// Relies on `chrono::NaiveDate::parse_from_str` with format `%Y-%m-%d` and
/// on `Datelike::{year, month, day}`: the result depends on the input
/// characters alone, and a parsed date's month is in `1..=12`, its day in
/// `1..=31`.
#[verifier::external_body]
fn parse_ymd_chrono(s: &str) -> (r: Option<(i32, u32, u32)>)
    ensures
        r == chrono_ymd(s@),
        r matches Some(p) ==> 1 <= p.1 <= 12 && 1 <= p.2 <= 31,
{
    match chrono::NaiveDate::parse_from_str(s, "%Y-%m-%d") {
        Ok(d) => Some((d.year(), d.month(), d.day())),
        Err(_) => None,
    }
}

/// Two digits, zero-padded, for `n` in `0..100`.
pub open spec fn spec_two_digits(n: int) -> Seq<char> {
    seq![digit_char(n / 10), digit_char(n % 10)]
}

/// A year, zero-padded to at least four digits, `-` first when negative.
pub open spec fn spec_year4(y: int) -> Seq<char> {
    let a = if y < 0 {
        -y
    } else {
        y
    };
    let digits = if a >= 10000 {
        spec_digits(a as nat)
    } else {
        seq![
            digit_char(a / 1000),
            digit_char((a / 100) % 10),
            digit_char((a / 10) % 10),
            digit_char(a % 10),
        ]
    };
    if y < 0 {
        seq!['-'] + digits
    } else {
        digits
    }
}

/// `fmt_dmy`'s result: `dd.mm.yyyy` when chrono parses the text as an ISO
/// day, the text itself otherwise.
pub open spec fn spec_fmt_dmy(s: Seq<char>) -> Seq<char> {
    match chrono_ymd(s) {
        Some(p) => spec_two_digits(p.2 as int) + seq!['.'] + spec_two_digits(p.1 as int)
            + seq!['.'] + spec_year4(p.0 as int),
        None => s,
    }
}

fn two_digit_str(n: u32) -> (r: String)
    requires
        n < 100,
    ensures
        r@ == spec_two_digits(n as int),
{
    let mut s = crate::amounts::digit_str((n / 10) as u64).to_owned();
    s.append(crate::amounts::digit_str((n % 10) as u64));
    proof {
        assert(s@ =~= spec_two_digits(n as int));
    }
    s
}

fn year4_str(y: i32) -> (r: String)
    ensures
        r@ == spec_year4(y as int),
{
    let a: u64 = if y < 0 {
        (-(y as i64)) as u64
    } else {
        y as u64
    };
    let mut s = if y < 0 {
        proof {
            reveal_strlit("-");
        }
        String::from_str("-")
    } else {
        String::new()
    };
    if a >= 10000 {
        let ds = crate::amounts::digits_str(a);
        s.append(ds.as_str());
    } else {
        s.append(crate::amounts::digit_str(a / 1000));
        s.append(crate::amounts::digit_str((a / 100) % 10));
        s.append(crate::amounts::digit_str((a / 10) % 10));
        s.append(crate::amounts::digit_str(a % 10));
    }
    proof {
        assert(s@ =~= spec_year4(y as int));
    }
    s
}

/// Formats a date for display as `dd.mm.yyyy`, via chrono's lenient ISO
/// parse; a text chrono cannot parse comes back unchanged.
pub fn fmt_dmy(s: &str) -> (r: String)
    ensures
        r@ == spec_fmt_dmy(s@),
{
    match parse_ymd_chrono(s) {
        Some((y, m, d)) => {
            let mut out = two_digit_str(d);
            proof {
                reveal_strlit(".");
            }
            out.append(".");
            let ms = two_digit_str(m);
            out.append(ms.as_str());
            out.append(".");
            let ys = year4_str(y);
            out.append(ys.as_str());
            proof {
                assert(out@ =~= spec_fmt_dmy(s@));
            }
            out
        },
        None => s.to_owned(),
    }
}

} // verus!
