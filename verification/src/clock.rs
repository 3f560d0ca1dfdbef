//! Time since boot.
//!
//! All timestamps in this library are whole nanoseconds since the flight
//! computer booted, held in a `u64`.

use vstd::prelude::*;

verus! {

/// Nanoseconds in one second
pub const NANOS_PER_SEC: u64 = 1_000_000_000;

/// The first timestamp that no longer fits the six bytes a record header
/// has for it: 2^48 ns, a little over three days.
pub const TIMESTAMP_LIMIT: u64 = 0x1_0000_0000_0000;

/// The nanoseconds in `secs` whole seconds and `subsec_nanos` nanoseconds.
pub open spec fn nanos_of(secs: u64, subsec_nanos: u32) -> int {
    secs * NANOS_PER_SEC + subsec_nanos
}

/// Turns a duration, given as whole seconds and the nanoseconds of the
/// fraction, into nanoseconds. Gives `None` when the count does not fit in
/// a `u64`.
pub fn nanos(secs: u64, subsec_nanos: u32) -> (n: Option<u64>)
    ensures
        nanos_of(secs, subsec_nanos) <= u64::MAX ==> n == Some(nanos_of(secs, subsec_nanos) as u64),
        nanos_of(secs, subsec_nanos) > u64::MAX ==> n is None,
{
    match secs.checked_mul(NANOS_PER_SEC) {
        Some(whole) => whole.checked_add(subsec_nanos as u64),
        None => None,
    }
}

} // verus!
