//! Page sizes and counters as the remote side takes and gives them.

use vstd::prelude::*;

verus! {

/// The smallest page that may be asked for.
pub const MIN_LIMIT: u8 = 1;

/// The largest page that may be asked for.
pub const MAX_LIMIT: u8 = 100;

/// `requested`, or `fallback` where nothing was requested, brought into the
/// range from [`MIN_LIMIT`] to [`MAX_LIMIT`].
pub open spec fn clamped_limit(requested: Option<u8>, fallback: u8) -> u8 {
    let wanted = match requested {
        Some(limit) => limit,
        None => fallback,
    };
    if wanted < MIN_LIMIT {
        MIN_LIMIT
    } else if wanted > MAX_LIMIT {
        MAX_LIMIT
    } else {
        wanted
    }
}

/// Computes the page size to ask the remote side for.
pub fn page_limit(requested: Option<u8>, fallback: u8) -> (limit: u8)
    ensures
        limit == clamped_limit(requested, fallback),
        MIN_LIMIT <= limit <= MAX_LIMIT,
{
    let wanted = match requested {
        Some(limit) => limit,
        None => fallback,
    };
    if wanted < MIN_LIMIT {
        MIN_LIMIT
    } else if wanted > MAX_LIMIT {
        MAX_LIMIT
    } else {
        wanted
    }
}

/// A counter as shown: nothing counts as zero, and a count is cut to 32 bits.
pub open spec fn shown_count(count: Option<i64>) -> u32 {
    match count {
        Some(n) => n as u32,
        None => 0,
    }
}

/// Converts a counter of the remote side into the one shown.
pub fn count_or_zero(count: Option<i64>) -> (shown: u32)
    ensures
        shown == shown_count(count),
{
    match count {
        Some(n) => #[verifier::truncate]
        (n as u32),
        None => 0,
    }
}

/// A size as shown: nothing counts as zero, and a size is cut to 32 bits.
pub open spec fn shown_size(size: Option<usize>) -> u32 {
    match size {
        Some(n) => n as u32,
        None => 0,
    }
}

/// Converts a size that the remote side gives into the counter shown.
pub fn size_or_zero(size: Option<usize>) -> (shown: u32)
    ensures
        shown == shown_size(size),
{
    match size {
        Some(n) => #[verifier::truncate]
        (n as u32),
        None => 0,
    }
}

} // verus!
