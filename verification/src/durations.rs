//! What the library knows of `std::time::Duration`, whose values it passes through
//! to the platform: the results of the few `Duration` functions it calls.

use std::time::Duration;
use vstd::prelude::*;

verus! {

/// What `Duration::as_millis` returns for `d`: its total number of whole
/// milliseconds.
pub uninterp spec fn duration_as_millis(d: Duration) -> u128;

/// What `Duration::from_secs(secs)` returns: a duration of `secs` whole seconds.
pub uninterp spec fn duration_from_secs(secs: u64) -> Duration;

/// What `Duration::from_millis(ms)` returns: a duration of `ms` milliseconds.
pub uninterp spec fn duration_from_millis(ms: u64) -> Duration;

/// What `Duration::saturating_mul(d, n)` returns: `d` times `n`, or
/// `Duration::MAX` where that overflows.
pub uninterp spec fn duration_saturating_mul(d: Duration, n: u32) -> Duration;

/// Calls `Duration::saturating_mul`; the result is named
/// `duration_saturating_mul(d, n)`, and multiplying by 1 gives `d` back.
#[verifier::external_body]
pub(crate) fn scaled(d: Duration, n: u32) -> (r: Duration)
    ensures
        r == duration_saturating_mul(d, n),
        n == 1 ==> r == d,
{
    d.saturating_mul(n)
}

/// Calls `Duration::as_millis`; the result is named `duration_as_millis(d)`.
#[verifier::external_body]
pub(crate) fn total_millis(d: Duration) -> (ms: u128)
    ensures
        ms == duration_as_millis(d),
{
    d.as_millis()
}

/// Calls `Duration::from_secs`; the result is named `duration_from_secs(secs)`.
#[verifier::external_body]
pub(crate) fn seconds(secs: u64) -> (d: Duration)
    ensures
        d == duration_from_secs(secs),
{
    Duration::from_secs(secs)
}

/// Calls `Duration::from_millis`; the result is named `duration_from_millis(ms)`,
/// and it holds exactly `ms` whole milliseconds.
#[verifier::external_body]
pub(crate) fn millis(ms: u64) -> (d: Duration)
    ensures
        d == duration_from_millis(ms),
        duration_as_millis(d) == ms,
{
    Duration::from_millis(ms)
}

/// `Duration` is `Copy`: its `clone` returns the same duration.
pub assume_specification[ <Duration as Clone>::clone ](d: &Duration) -> (r: Duration)
    ensures
        r == *d,
;

} // verus!
