//! The timestamp of a tick: an instant, counted in whole seconds since the Unix
//! epoch, written in UTC with a precision of one second.
use vstd::prelude::*;

verus! {

/// What chrono writes for the UTC instant `secs` seconds after the Unix epoch
/// under the strftime `pattern`, or `None` where chrono has no date for `secs`.
pub uninterp spec fn utc_formatted(secs: i64, pattern: Seq<char>) -> Option<Seq<char>>;

/// The text of the instant `secs` in the form that the log and the status view
/// use: year, month and day joined by hyphens, a space, then hours, minutes and
/// seconds joined by colons.
pub open spec fn timestamp_of(secs: i64) -> Option<Seq<char>> {
    utc_formatted(secs, "%Y-%m-%d %H:%M:%S"@)
}

/// Calls chrono's `DateTime::<Utc>::from_timestamp(secs, 0)` and, where that
/// gives an instant, `format(pattern)` on it and `to_string()` on the outcome.
///
/// Trusted: the result is a function of `secs` and `pattern` alone (UTC, no
/// locale), which `utc_formatted` names. The pattern is held to the one that
/// the library uses, whose specifiers chrono can all write for a full date and
/// time, so that `to_string` has no error to panic on.
#[verifier::external_body]
fn format_utc(secs: i64, pattern: &str) -> (text: Option<String>)
    requires
        pattern@ == "%Y-%m-%d %H:%M:%S"@,
    ensures
        text is Some <==> utc_formatted(secs, pattern@) is Some,
        text is Some ==> text->0@ == utc_formatted(secs, pattern@)->0,
{
    match chrono::DateTime::from_timestamp(secs, 0) {
        Some(instant) => Some(instant.format(pattern).to_string()),
        None => None,
    }
}

/// The timestamp of the instant `secs` seconds after the Unix epoch, or `None`
/// where the instant lies outside the calendar that chrono covers.
pub fn format_timestamp(secs: i64) -> (text: Option<String>)
    ensures
        text is Some <==> timestamp_of(secs) is Some,
        text is Some ==> text->0@ == timestamp_of(secs)->0,
{
    format_utc(secs, "%Y-%m-%d %H:%M:%S")
}

} // verus!
