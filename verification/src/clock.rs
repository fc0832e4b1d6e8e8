//! Typed dates and time-zone names: what instant a typed `YYYY-MM-DD HH:MM`
//! stands for, read in UTC, and whether a name is a known time zone. Both
//! questions are answered by chrono and chrono-tz.

use vstd::prelude::*;

verus! {

/// The instant, in whole seconds since 1970-01-01 00:00 UTC, that `text`
/// denotes when read as a UTC date and time in the form `%Y-%m-%d %H:%M`;
/// none when it does not have that form or names no valid date and time.
pub uninterp spec fn typed_utc_seconds(text: Seq<char>) -> Option<i64>;

/// Whether `name` is the name of a time zone of the tz database.
pub uninterp spec fn zone_known(name: Seq<char>) -> bool;

/// Calls chrono's `NaiveDateTime::parse_from_str` with the format
/// `%Y-%m-%d %H:%M` and, on success, takes the Unix timestamp of that date and
/// time read as UTC (`and_utc().timestamp()`). The contract claims only that
/// the result is `typed_utc_seconds` of the text: which texts chrono accepts
/// and how it counts the seconds is left to chrono.
#[verifier::external_body]
pub(crate) fn parse_typed_datetime(text: &str) -> (r: Option<i64>)
    ensures
        r == typed_utc_seconds(text@),
{
    match chrono::NaiveDateTime::parse_from_str(text, "%Y-%m-%d %H:%M") {
        Ok(naive) => Some(naive.and_utc().timestamp()),
        Err(_) => None,
    }
}

/// Calls chrono-tz's `FromStr` for `Tz`, which looks the name up in its table
/// of tz database zones. The contract claims only that the outcome is
/// `zone_known` of the name; which names the table holds is left to chrono-tz.
#[verifier::external_body]
pub(crate) fn is_zone_name(name: &str) -> (r: bool)
    ensures
        r == zone_known(name@),
{
    match name.parse::<chrono_tz::Tz>() {
        Ok(_) => true,
        Err(_) => false,
    }
}

/// The time-zone override of a stored location: kept when it names a known
/// zone, dropped otherwise (the zone is then found from the coordinates).
pub fn zone_override(name: Option<String>) -> (r: Option<String>)
    ensures
        r == (match name {
            Some(n) => if zone_known(n@) { Some(n) } else { None },
            None => None,
        }),
{
    match name {
        Some(n) => {
            if is_zone_name(n.as_str()) {
                Some(n)
            } else {
                None
            }
        },
        None => None,
    }
}

} // verus!
