//! Wall-clock time as milliseconds since the Unix epoch.

use vstd::prelude::*;

verus! {

/// Every reading of the clock is below this: two to the power 53.
pub const CLOCK_LIMIT_MILLIS: i64 = 0x20_0000_0000_0000;

/// The RFC 3339 text of the instant `millis` milliseconds after the epoch, in
/// UTC; `None` for an instant that the calendar does not reach.
pub uninterp spec fn rfc3339_text(millis: int) -> Option<Seq<char>>;

/// Reads the clock through `chrono::Utc::now` and takes the reading's
/// `timestamp_millis`.
///
/// Not proved: that the reading is not negative and below
/// [`CLOCK_LIMIT_MILLIS`]. `Utc::now` counts from the epoch and returns only
/// instants that chrono can represent, none of them after the year 262142,
/// which is fewer than two to the power 53 milliseconds away. On a machine
/// whose clock reads before 1970 or beyond that calendar, `Utc::now` does
/// not return but panics; no argument decides this, so nothing here can
/// rule it out.
#[verifier::external_body]
pub(crate) fn now_millis() -> (millis: i64)
    ensures
        0 <= millis < CLOCK_LIMIT_MILLIS,
{
    chrono::Utc::now().timestamp_millis()
}

/// Builds the instant with `chrono::DateTime::from_timestamp_millis` and
/// writes it with `DateTime::to_rfc3339`.
///
/// Not proved: that the outcome depends on `millis` alone, which is what
/// naming it [`rfc3339_text`] claims.
#[verifier::external_body]
pub(crate) fn format_rfc3339(millis: i64) -> (text: Option<String>)
    ensures
        match text {
            Some(t) => rfc3339_text(millis as int) == Some(t@),
            None => rfc3339_text(millis as int) is None,
        },
{
    match chrono::DateTime::from_timestamp_millis(millis) {
        Some(instant) => Some(instant.to_rfc3339()),
        None => None,
    }
}

} // verus!
