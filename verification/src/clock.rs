//! The current time, as a count and as text.
use vstd::prelude::*;

verus! {

/// The current time from `chrono::Utc::now()`, as its `timestamp()` (whole
/// seconds since the Unix epoch) and its `timestamp_subsec_nanos()`
/// (nanoseconds since the last second boundary, past 999,999,999 only during
/// a leap second). Chrono orders instants by this pair, first by seconds. Which
/// instant it is, is not stated; `Utc::now` reads the system clock and fails
/// (rather than return) when the clock is before the epoch, and chrono holds
/// no instant past the year 262143, so the seconds stay below
/// 9,000,000,000,000.
#[verifier::external_body]
pub(crate) fn now_timestamp() -> (r: (i64, u32))
    ensures
        0 <= r.0 < 9_000_000_000_000,
        r.1 < 2_000_000_000,
{
    let now = chrono::Utc::now();
    (now.timestamp(), now.timestamp_subsec_nanos())
}

/// `chrono::Utc::now().to_rfc3339()`: the current time as RFC 3339 text,
/// such as `2024-05-01T08:30:00.123456+00:00`. Which instant it is, is not
/// stated; the text has at least the 25 characters of a date, a time to the
/// second and an offset, and ends with the offset of UTC written as
/// `+00:00` (chrono never writes `Z` here).
#[verifier::external_body]
pub(crate) fn now_rfc3339() -> (r: String)
    ensures
        r@.len() >= 25,
        r@.subrange(r@.len() - 6, r@.len() as int) == "+00:00"@,
{
    chrono::Utc::now().to_rfc3339()
}

} // verus!
