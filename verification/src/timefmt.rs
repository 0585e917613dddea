//! Date-and-time texts brought into one form.
//!
//! The remote side writes instants in more than one way. A front end reads
//! RFC 3339, so a text in any form that is understood is written anew in
//! RFC 3339, and any other text is passed on as it is.

use vstd::prelude::*;
use vstd::string::*;

verus! {

/// What `text` reads as under RFC 3339, written anew in RFC 3339; `None`
/// where it does not read as such.
pub uninterp spec fn rfc3339_reading(text: Seq<char>) -> Option<Seq<char>>;

/// What `text` reads as in the form `2024-01-31 12:00:00.5 +0000`, written
/// anew in RFC 3339; `None` where it does not read as such.
pub uninterp spec fn spaced_reading(text: Seq<char>) -> Option<Seq<char>>;

/// What `text` reads as under RFC 2822, written anew in RFC 3339; `None`
/// where it does not read as such.
pub uninterp spec fn rfc2822_reading(text: Seq<char>) -> Option<Seq<char>>;

/// Whether a reading is the given outcome of a parser.
pub open spec fn is_reading(reading: Option<Seq<char>>, outcome: Option<String>) -> bool {
    match outcome {
        Some(text) => reading == Some(text@),
        None => reading is None,
    }
}

/// Parses with `chrono::DateTime::parse_from_rfc3339` and writes what was
/// read with `DateTime::to_rfc3339`.
///
/// Not proved: that the outcome depends on the text alone, which is what
/// naming it [`rfc3339_reading`] claims.
#[verifier::external_body]
pub(crate) fn read_rfc3339(text: &str) -> (outcome: Option<String>)
    ensures
        is_reading(rfc3339_reading(text@), outcome),
{
    match chrono::DateTime::parse_from_rfc3339(text) {
        Ok(instant) => Some(instant.to_rfc3339()),
        Err(_) => None,
    }
}

/// Parses with `chrono::DateTime::parse_from_str` under the format
/// `%Y-%m-%d %H:%M:%S%.f %z` and writes what was read with
/// `DateTime::to_rfc3339`.
///
/// Not proved: that the outcome depends on the text alone, which is what
/// naming it [`spaced_reading`] claims.
#[verifier::external_body]
pub(crate) fn read_spaced(text: &str) -> (outcome: Option<String>)
    ensures
        is_reading(spaced_reading(text@), outcome),
{
    match chrono::DateTime::parse_from_str(text, "%Y-%m-%d %H:%M:%S%.f %z") {
        Ok(instant) => Some(instant.to_rfc3339()),
        Err(_) => None,
    }
}

/// Parses with `chrono::DateTime::parse_from_rfc2822` and writes what was
/// read with `DateTime::to_rfc3339`.
///
/// Not proved: that the outcome depends on the text alone, which is what
/// naming it [`rfc2822_reading`] claims.
#[verifier::external_body]
pub(crate) fn read_rfc2822(text: &str) -> (outcome: Option<String>)
    ensures
        is_reading(rfc2822_reading(text@), outcome),
{
    match chrono::DateTime::parse_from_rfc2822(text) {
        Ok(instant) => Some(instant.to_rfc3339()),
        Err(_) => None,
    }
}

/// Whether `text` already looks like an ISO 8601 instant: it has a `T`, and
/// it ends in `Z` or has a sign somewhere.
pub open spec fn looks_like_iso(text: Seq<char>) -> bool {
    text.contains('T') && ((text.len() > 0 && text.last() == 'Z') || text.contains('+')
        || text.contains('-'))
}

/// An indexing time as shown: the RFC 3339 reading, else the reading in the
/// spaced form, else the text itself.
pub open spec fn indexed_at_text(text: Seq<char>) -> Seq<char> {
    match rfc3339_reading(text) {
        Some(normal) => normal,
        None => match spaced_reading(text) {
            Some(normal) => normal,
            None => text,
        },
    }
}

/// A time as a script can read it: the RFC 3339 reading, else the reading in
/// the spaced form, else the text itself where it looks like ISO 8601, else
/// the RFC 2822 reading, else the text itself.
pub open spec fn datetime_for_js_text(text: Seq<char>) -> Seq<char> {
    match rfc3339_reading(text) {
        Some(normal) => normal,
        None => match spaced_reading(text) {
            Some(normal) => normal,
            None => if looks_like_iso(text) {
                text
            } else {
                match rfc2822_reading(text) {
                    Some(normal) => normal,
                    None => text,
                }
            },
        },
    }
}

/// Tells whether `wanted` occurs in `text`.
pub fn has_char(text: &str, wanted: char) -> (found: bool)
    ensures
        found == text@.contains(wanted),
{
    let n = text.unicode_len();
    let mut i: usize = 0;
    while i < n
        invariant
            n == text@.len(),
            i <= n,
            forall|k: int| 0 <= k < i ==> text@[k] != wanted,
        decreases n - i,
    {
        if text.get_char(i) == wanted {
            return true;
        }
        i = i + 1;
    }
    false
}

/// Tells whether `text` looks like an ISO 8601 instant.
pub fn is_iso_like(text: &str) -> (iso: bool)
    ensures
        iso == looks_like_iso(text@),
{
    if !has_char(text, 'T') {
        return false;
    }
    let n = text.unicode_len();
    if n > 0 && text.get_char(n - 1) == 'Z' {
        return true;
    }
    has_char(text, '+') || has_char(text, '-')
}

/// Brings the indexing time of a notification into RFC 3339 where it is
/// understood.
pub fn normalize_indexed_at(text: &str) -> (shown: String)
    ensures
        shown@ == indexed_at_text(text@),
{
    match read_rfc3339(text) {
        Some(normal) => normal,
        None => match read_spaced(text) {
            Some(normal) => normal,
            None => text.to_owned(),
        },
    }
}

/// Brings a time into a form that a script can read.
pub fn format_datetime_for_js(text: &str) -> (shown: String)
    ensures
        shown@ == datetime_for_js_text(text@),
{
    match read_rfc3339(text) {
        Some(normal) => {
            return normal;
        },
        None => {},
    }
    match read_spaced(text) {
        Some(normal) => {
            return normal;
        },
        None => {},
    }
    if is_iso_like(text) {
        return text.to_owned();
    }
    match read_rfc2822(text) {
        Some(normal) => normal,
        None => text.to_owned(),
    }
}

} // verus!
