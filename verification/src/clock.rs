//! Readings of the system clock, through chrono.

use vstd::prelude::*;
use crate::text::{all_digits, digits_value};

verus! {

/// Two decimal digits starting at `i`, read as a number.
pub open spec fn two_digit_value(s: Seq<char>, i: int) -> int {
    digits_value(s.subrange(i, i + 2))
}

/// A calendar date as chrono writes it: the year in four digits (with its sign when it
/// lies outside 0 to 9999), then the month and the day in two digits each, joined by
/// hyphens.
pub open spec fn date_text(s: Seq<char>) -> bool {
    let n = s.len() as int;
    let year = s.subrange(0, n - 6);
    &&& n >= 10
    &&& s[n - 6] == '-'
    &&& s[n - 3] == '-'
    &&& all_digits(s.subrange(n - 5, n - 3))
    &&& all_digits(s.subrange(n - 2, n))
    &&& 1 <= two_digit_value(s, n - 5) <= 12
    &&& 1 <= two_digit_value(s, n - 2) <= 31
    &&& ((year.len() == 4 && all_digits(year))
        || (year.len() >= 5 && (year[0] == '+' || year[0] == '-') && all_digits(year.drop_first())))
}

/// A time of day as chrono writes it for RFC 3339: hours, minutes and seconds in two
/// digits each, joined by colons, then a fraction of three, six or nine digits when the
/// instant is not a whole second.
pub open spec fn clock_time_text(t: Seq<char>) -> bool {
    &&& t.len() == 8 || t.len() == 12 || t.len() == 15 || t.len() == 18
    &&& all_digits(t.subrange(0, 2))
    &&& t[2] == ':'
    &&& all_digits(t.subrange(3, 5))
    &&& t[5] == ':'
    &&& all_digits(t.subrange(6, 8))
    &&& t.len() > 8 ==> t[8] == '.' && all_digits(t.subrange(9, t.len() as int))
}

/// An RFC 3339 timestamp in UTC as chrono writes it: a date, `T`, a time of day and the
/// offset `+00:00`.
pub open spec fn utc_timestamp_text(s: Seq<char>) -> bool {
    exists|k: int|
        0 < k && k + 7 <= s.len() && s[k] == 'T' && #[trigger] date_text(s.subrange(0, k))
            && clock_time_text(s.subrange(k + 1, s.len() - 6))
            && s.subrange(s.len() - 6, s.len() as int) == "+00:00"@
}

/// Calls chrono's `Utc::now` and renders the instant with `DateTime::to_rfc3339`.
/// Which instant is read depends on the moment of the call; every outcome is an RFC 3339
/// timestamp in UTC.
#[verifier::external_body]
pub(crate) fn now_rfc3339() -> (stamp: String)
    ensures
        utc_timestamp_text(stamp@),
{
    chrono::Utc::now().to_rfc3339()
}

/// Calls chrono's `Utc::now`, takes its calendar date with `date_naive`, adds the
/// given number of days with `Duration::days`, and renders the date with `to_string`.
/// Which date comes out depends on the day of the call; every outcome is a date in
/// chrono's `%Y-%m-%d` form.
#[verifier::external_body]
pub(crate) fn date_after_days(days: i64) -> (date: String)
    requires
        -36_500 <= days <= 36_500,
    ensures
        date_text(date@),
{
    (chrono::Utc::now().date_naive() + chrono::Duration::days(days)).to_string()
}

} // verus!
