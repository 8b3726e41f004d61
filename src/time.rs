//! Time points as the engine reads them: whole units of its monotonic clock.
use vstd::prelude::*;

verus! {

pub const NANOS_PER_SEC: u64 = 1_000_000_000;

pub const NANOS_PER_MICRO: u64 = 1_000;

/// A time of `secs` seconds and `subsec_nanos` nanoseconds, in nanoseconds.
pub open spec fn total_nanos(secs: u64, subsec_nanos: u32) -> int {
    secs * NANOS_PER_SEC + subsec_nanos
}

/// The time in nanoseconds, exact wherever it fits in 64 bits and the
/// largest value otherwise.
pub fn nanos(secs: u64, subsec_nanos: u32) -> (r: u64)
    requires
        subsec_nanos < NANOS_PER_SEC,
    ensures
        total_nanos(secs, subsec_nanos) <= u64::MAX ==> r == total_nanos(secs, subsec_nanos),
        total_nanos(secs, subsec_nanos) > u64::MAX ==> r == u64::MAX,
{
    let whole = secs.checked_mul(NANOS_PER_SEC);
    match whole {
        Some(w) => match w.checked_add(subsec_nanos as u64) {
            Some(t) => t,
            None => u64::MAX,
        },
        None => u64::MAX,
    }
}

/// The time in whole microseconds, rounded down, exact wherever it fits in
/// 64 bits and the largest value otherwise.
pub fn micros(secs: u64, subsec_nanos: u32) -> (r: u64)
    requires
        subsec_nanos < NANOS_PER_SEC,
    ensures
        total_nanos(secs, subsec_nanos) / NANOS_PER_MICRO as int <= u64::MAX ==> r
            == total_nanos(secs, subsec_nanos) / NANOS_PER_MICRO as int,
        total_nanos(secs, subsec_nanos) / NANOS_PER_MICRO as int > u64::MAX ==> r == u64::MAX,
{
    let sub_micros: u64 = (subsec_nanos / 1_000) as u64;
    assert(total_nanos(secs, subsec_nanos) / 1000 == secs * 1_000_000 + sub_micros) by {
        assert(secs * NANOS_PER_SEC == (secs * 1_000_000) * 1000) by (nonlinear_arith);
        assert(sub_micros == subsec_nanos / 1000);
        assert((secs * 1_000_000 * 1000 + subsec_nanos) / 1000 == secs * 1_000_000 + subsec_nanos
            / 1000) by (nonlinear_arith)
            requires
                subsec_nanos >= 0,
        ;
    }
    match secs.checked_mul(1_000_000) {
        Some(w) => match w.checked_add(sub_micros) {
            Some(t) => t,
            None => u64::MAX,
        },
        None => u64::MAX,
    }
}

} // verus!
