use vstd::prelude::*;

verus! {

/// Nanoseconds in one second.
pub const NANOS_PER_SECOND: u128 = 1_000_000_000;

/// Earliest instant the `time` crate represents (-9999-01-01 00:00:00 UTC),
/// in nanoseconds since the Unix epoch.
pub const MIN_UNIX_NANOS: i128 = -377705116800000000000;

/// Latest instant the `time` crate represents (9999-12-31 23:59:59.999999999
/// UTC), in nanoseconds since the Unix epoch.
pub const MAX_UNIX_NANOS: i128 = 253402300799999999999;

/// An instant in time, held as nanoseconds since the Unix epoch (UTC).
#[derive(Clone, Copy, Debug, PartialEq, Eq, Structural)]
pub struct Timestamp {
    pub unix_nanos: i128,
}

/// Distance between two integers.
pub open spec fn abs_diff(a: int, b: int) -> int {
    if a >= b {
        a - b
    } else {
        b - a
    }
}

/// Whole seconds between two instants, whichever comes first: the magnitude
/// of the difference, rounded towards zero to whole seconds.
pub open spec fn age_seconds(now: Timestamp, then: Timestamp) -> int {
    abs_diff(now.unix_nanos as int, then.unix_nanos as int) / (NANOS_PER_SECOND as int)
}

/// Nanoseconds since the Unix epoch according to the system clock.
///
/// Calls `time::OffsetDateTime::now_utc` and reads `unix_timestamp_nanos` of
/// the result. The value is whatever the clock says; the only claim is that it
/// lies in the range of dates the `time` crate represents (`now_utc` builds a
/// UTC date by adding the clock's offset to the epoch, which panics rather than
/// leave that range).
#[verifier::external_body]
fn current_unix_nanos() -> (nanos: i128)
    ensures
        MIN_UNIX_NANOS <= nanos <= MAX_UNIX_NANOS,
{
    time::OffsetDateTime::now_utc().unix_timestamp_nanos()
}

/// Exact distance between two `i128` values, computed without overflow.
pub fn abs_diff_i128(a: i128, b: i128) -> (d: u128)
    ensures
        d as int == abs_diff(a as int, b as int),
{
    if a >= b {
        if b >= 0 || a < 0 {
            (a - b) as u128
        } else {
            (a as u128) + ((-(b + 1)) as u128) + 1
        }
    } else {
        if a >= 0 || b < 0 {
            (b - a) as u128
        } else {
            (b as u128) + ((-(a + 1)) as u128) + 1
        }
    }
}

impl Timestamp {
    /// The instant with the given number of nanoseconds since the Unix epoch.
    pub fn from_unix_nanos(unix_nanos: i128) -> (t: Timestamp)
        ensures
            t.unix_nanos == unix_nanos,
    {
        Timestamp { unix_nanos }
    }

    /// The current instant, read from the system clock; it lies in the range
    /// of dates the `time` crate represents.
    pub fn now() -> (t: Timestamp)
        ensures
            MIN_UNIX_NANOS <= t.unix_nanos <= MAX_UNIX_NANOS,
    {
        Timestamp { unix_nanos: current_unix_nanos() }
    }

    /// Whole seconds between `self` and `other`, in either order.
    pub fn seconds_between(&self, other: &Timestamp) -> (s: u128)
        ensures
            s as int == age_seconds(*self, *other),
    {
        abs_diff_i128(self.unix_nanos, other.unix_nanos) / NANOS_PER_SECOND
    }
}

} // verus!
