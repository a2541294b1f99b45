//! A model of [`Duration`] as a count of nanoseconds.

use std::time::Duration;
use vstd::prelude::*;

verus! {

/// Nanoseconds in one second.
pub const NANOS_PER_SEC: u128 = 1_000_000_000;

/// Nanoseconds in the longest [`Duration`]: `u64::MAX` seconds and 999,999,999 nanoseconds.
pub const MAX_DURATION_NANOS: u128 = 18_446_744_073_709_551_615_999_999_999;

/// The whole seconds that a duration holds: what `Duration::as_secs` returns.
pub uninterp spec fn duration_secs(d: Duration) -> u64;

/// The part of a duration below one second, in nanoseconds: what `Duration::subsec_nanos`
/// returns.
pub uninterp spec fn duration_subsec_nanos(d: Duration) -> u32;

/// The length of a duration in nanoseconds.
pub open spec fn duration_nanos(d: Duration) -> nat {
    (duration_secs(d) as nat) * 1_000_000_000 + (duration_subsec_nanos(d) as nat)
}

/// `Duration::as_secs` returns the number of whole seconds in the duration.
pub assume_specification[ Duration::as_secs ](d: &Duration) -> (secs: u64)
    ensures
        secs == duration_secs(*d),
;

/// `Duration::subsec_nanos` returns the fractional part of the duration in nanoseconds,
/// which is always less than one billion.
pub assume_specification[ Duration::subsec_nanos ](d: &Duration) -> (nanos: u32)
    ensures
        nanos == duration_subsec_nanos(*d),
        nanos < 1_000_000_000,
;

/// `Duration::new` builds a duration from whole seconds and additional nanoseconds. With
/// fewer than one billion nanoseconds nothing carries over into the seconds, so it cannot
/// overflow and the two parts come back as given.
pub assume_specification[ Duration::new ](secs: u64, nanos: u32) -> (d: Duration)
    requires
        nanos < 1_000_000_000,
    ensures
        duration_secs(d) == secs,
        duration_subsec_nanos(d) == nanos,
;

/// The length of `d` in nanoseconds.
pub fn total_nanos(d: Duration) -> (nanos: u128)
    ensures
        nanos == duration_nanos(d),
        nanos <= MAX_DURATION_NANOS,
{
    let secs: u64 = d.as_secs();
    let sub: u32 = d.subsec_nanos();
    (secs as u128) * NANOS_PER_SEC + (sub as u128)
}

/// The duration that lasts `nanos` nanoseconds, where one that long exists.
pub fn duration_from_nanos(nanos: u128) -> (d: Option<Duration>)
    ensures
        nanos <= MAX_DURATION_NANOS <==> d is Some,
        d matches Some(d) ==> duration_nanos(d) == nanos,
{
    if nanos > MAX_DURATION_NANOS {
        return None;
    }
    let secs: u128 = nanos / NANOS_PER_SEC;
    let sub: u128 = nanos % NANOS_PER_SEC;
    Some(Duration::new(secs as u64, sub as u32))
}

} // verus!
