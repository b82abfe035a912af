//! Calendar dates. Dates are stored as `YYYY-MM-DD` text; the logic reasons
//! about them as day numbers (days since 1 January of year 1, as
//! `chrono::Datelike::num_days_from_ce` counts them), so that a difference
//! of two dates is a subtraction. Reading and writing the text is chrono's
//! work.

use vstd::prelude::*;
use chrono::Datelike;
use crate::text::chars_of;
use vstd::string::StringSliceAdditionalSpecFns;

verus! {

/// The day number that chrono reads from `s` with the format `%Y-%m-%d`,
/// or `None` where chrono refuses the text.
pub uninterp spec fn chrono_parse_ymd(s: Seq<char>) -> Option<i32>;

/// The `%Y-%m-%d` text that chrono writes for day number `day`, or `None`
/// where the day lies outside chrono's calendar.
pub uninterp spec fn chrono_format_ymd(day: i32) -> Option<Seq<char>>;

/// The year that chrono's `Datelike::year_ce` reports for day number `day`
/// (the year counted from 1, which is the calendar year for every date of
/// the common era), or `None` outside chrono's calendar.
pub uninterp spec fn chrono_ce_year(day: i32) -> Option<u32>;

/// The day number of the date `year-month-day` (`NaiveDate::from_ymd_opt`),
/// or `None` where that is no date.
pub uninterp spec fn chrono_ymd(year: i32, month: u32, day: u32) -> Option<i32>;

/// Reads a `YYYY-MM-DD` date: `chrono::NaiveDate::parse_from_str(s,
/// "%Y-%m-%d")`, taken as its day number. The contract names chrono's
/// answer and says nothing of which texts it accepts.
#[verifier::external_body]
pub(crate) fn parse_ymd(s: &str) -> (r: Option<i32>)
    ensures
        r == chrono_parse_ymd(s@),
{
    match chrono::NaiveDate::parse_from_str(s, "%Y-%m-%d") {
        Ok(d) => Some(d.num_days_from_ce()),
        Err(_) => None,
    }
}

/// Writes day number `day` as `YYYY-MM-DD`:
/// `chrono::NaiveDate::from_num_days_from_ce_opt(day)` formatted with
/// `"%Y-%m-%d"`. The contract names chrono's text.
#[verifier::external_body]
pub(crate) fn format_ymd(day: i32) -> (r: Option<String>)
    ensures
        match r {
            Some(s) => chrono_format_ymd(day) == Some(s@),
            None => chrono_format_ymd(day) is None,
        },
{
    match chrono::NaiveDate::from_num_days_from_ce_opt(day) {
        Some(d) => Some(d.format("%Y-%m-%d").to_string()),
        None => None,
    }
}

/// The year of day number `day` as `chrono::Datelike::year_ce` reports
/// it. The contract names chrono's answer.
#[verifier::external_body]
pub(crate) fn ce_year(day: i32) -> (r: Option<u32>)
    ensures
        r == chrono_ce_year(day),
{
    match chrono::NaiveDate::from_num_days_from_ce_opt(day) {
        Some(d) => Some(d.year_ce().1),
        None => None,
    }
}

/// `chrono::NaiveDate::from_ymd_opt(year, month, day)` as a day number.
/// The contract names chrono's answer.
#[verifier::external_body]
pub(crate) fn ymd_day(year: i32, month: u32, day: u32) -> (r: Option<i32>)
    ensures
        r == chrono_ymd(year, month, day),
{
    match chrono::NaiveDate::from_ymd_opt(year, month, day) {
        Some(d) => Some(d.num_days_from_ce()),
        None => None,
    }
}

/// Lexicographic order of texts (the order of Rust's `str` comparison:
/// by code points, a proper prefix first).
pub open spec fn lex_le(a: Seq<char>, b: Seq<char>) -> bool
    decreases a.len(),
{
    if a.len() == 0 {
        true
    } else if b.len() == 0 {
        false
    } else if (a[0] as u32) < (b[0] as u32) {
        true
    } else if (a[0] as u32) > (b[0] as u32) {
        false
    } else {
        lex_le(a.drop_first(), b.drop_first())
    }
}

/// `a <= b` on string slices.
pub fn str_le(a: &str, b: &str) -> (r: bool)
    ensures
        r == lex_le(a@, b@),
{
    let x = chars_of(a);
    let y = chars_of(b);
    let n = x.len();
    let m = y.len();
    let mut i: usize = 0;
    proof {
        assert(x@.skip(0) =~= a@);
        assert(y@.skip(0) =~= b@);
    }
    while i < n && i < m
        invariant
            n == x@.len(),
            m == y@.len(),
            i <= n,
            i <= m,
            lex_le(a@, b@) == lex_le(x@.skip(i as int), y@.skip(i as int)),
        decreases n - i,
    {
        let c = x[i];
        let d = y[i];
        proof {
            assert(x@.skip(i as int)[0] == c);
            assert(y@.skip(i as int)[0] == d);
            assert(x@.skip(i as int).drop_first() =~= x@.skip(i + 1));
            assert(y@.skip(i as int).drop_first() =~= y@.skip(i + 1));
        }
        if (c as u32) < (d as u32) {
            return true;
        }
        if (c as u32) > (d as u32) {
            return false;
        }
        i = i + 1;
    }
    proof {
        if i == n {
            assert(x@.skip(i as int).len() == 0);
        } else {
            assert(y@.skip(i as int).len() == 0);
        }
    }
    i == n
}

/// The year the income, flow and stocks pages report on: the year of the
/// latest dated row, or 2026 when there is none.
pub fn current_year(latest_as_of: &str) -> (r: &str)
    requires
        latest_as_of.spec_bytes().len() <= usize::MAX,
        latest_as_of.spec_bytes().len() >= 4 ==> vstd::utf8::is_char_boundary(
            latest_as_of.spec_bytes(),
            4,
        ),
    ensures
        latest_as_of.spec_bytes().len() >= 4 ==> r.spec_bytes() == latest_as_of.spec_bytes().subrange(0, 4),
        latest_as_of.spec_bytes().len() < 4 ==> r@ == "2026"@,
{
    proof {
        vstd::utf8::encode_utf8_valid_utf8(latest_as_of@);
    }
    if latest_as_of.len() >= 4 {
        let (y, _) = latest_as_of.split_at(4);
        assert(y.spec_bytes() =~= latest_as_of.spec_bytes().subrange(0, 4));
        y
    } else {
        "2026"
    }
}

/// `{year}-01-01`, the first day of a year.
pub fn year_start(year: &str) -> (r: String)
    ensures
        r@ == year@ + "-01-01"@,
{
    crate::text::concat2(year, "-01-01")
}

/// `{year}-12-31`, the last day of a year.
pub fn year_end(year: &str) -> (r: String)
    ensures
        r@ == year@ + "-12-31"@,
{
    crate::text::concat2(year, "-12-31")
}

} // verus!
