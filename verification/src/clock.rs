//! Instants, as seconds since the Unix epoch, written out for people.

use vstd::prelude::*;
use crate::text::text_of;

verus! {

/// The instant `secs` seconds after the Unix epoch, written as a UTC date
/// and time of day (`2015-05-15 00:00:00 UTC`); `None` for an instant that
/// the calendar cannot hold.
pub uninterp spec fn utc_text(secs: int) -> Option<Seq<char>>;

/// What stands in place of an instant that the calendar cannot hold.
pub open spec fn unknown_instant() -> Seq<char> {
    "unknown"@
}

/// The instant `secs` as it is shown: its date and time, or the word for an
/// instant that has none.
pub open spec fn instant_text(secs: int) -> Seq<char> {
    match utc_text(secs) {
        Some(t) => t,
        None => unknown_instant(),
    }
}

/// `chrono::DateTime::from_timestamp` makes a UTC instant from whole
/// seconds, or `None` where they are out of range; `DateTime::format` then
/// writes it with the pattern `%Y-%m-%d %H:%M:%S UTC`. The contract claims
/// only that the outcome depends on `secs` alone.
#[verifier::external_body]
pub(crate) fn format_utc(secs: i64) -> (r: Option<String>)
    ensures
        text_of(r) == utc_text(secs as int),
{
    match chrono::DateTime::from_timestamp(secs, 0) {
        Some(t) => Some(t.format("%Y-%m-%d %H:%M:%S UTC").to_string()),
        None => None,
    }
}

/// The text that an instant is shown with, given its date and time where
/// it has one.
pub fn shown_instant(written: Option<String>) -> (r: String)
    ensures
        r@ == match text_of(written) {
            Some(t) => t,
            None => unknown_instant(),
        },
{
    match written {
        Some(t) => t,
        None => "unknown".to_owned(),
    }
}

/// The instant `secs` as it is shown.
pub fn instant(secs: i64) -> (r: String)
    ensures
        r@ == instant_text(secs as int),
{
    shown_instant(format_utc(secs))
}

} // verus!
