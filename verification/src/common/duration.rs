//! Spans of time, as `std::time::Duration` holds them.
use vstd::prelude::*;

use core::time::Duration;

verus! {

/// The span of `secs` whole seconds (`Duration::from_secs`).
pub uninterp spec fn span_of_secs(secs: u64) -> Duration;

/// The span of `millis` milliseconds (`Duration::from_millis`).
pub uninterp spec fn span_of_millis(millis: u64) -> Duration;

/// `Duration::from_secs`.
#[verifier::external_body]
pub(crate) fn secs(n: u64) -> (d: Duration)
    ensures
        d == span_of_secs(n),
{
    Duration::from_secs(n)
}

/// `Duration::from_millis`.
#[verifier::external_body]
pub(crate) fn millis(n: u64) -> (d: Duration)
    ensures
        d == span_of_millis(n),
{
    Duration::from_millis(n)
}

} // verus!
