//! The wall clock, as far as a measurement needs it.

use vstd::prelude::*;
use std::time::{Duration, Instant};

verus! {

/// `std::time::Instant`, a reading of the monotonic clock. Nothing is known
/// of a value of it.
#[verifier::external_type_specification]
#[verifier::external_body]
pub struct ExInstant(Instant);

/// `std::time::Instant::now`: some instant; nothing is known of it.
pub assume_specification[ Instant::now ]() -> (now: Instant);

/// `std::time::Instant::elapsed`: some span of time; nothing is known of it.
pub assume_specification[ Instant::elapsed ](start: &Instant) -> (span: Duration);

/// `std::time::Duration::as_secs`: the whole seconds of a span.
pub assume_specification[ Duration::as_secs ](span: &Duration) -> (secs: u64);

/// `std::time::Duration::subsec_nanos`: the part of a span beyond its whole
/// seconds, in nanoseconds, which is less than a second.
pub assume_specification[ Duration::subsec_nanos ](span: &Duration) -> (nanos: u32)
    ensures
        nanos < 1_000_000_000,
;

} // verus!
