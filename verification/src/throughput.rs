//! From byte counts and elapsed time to a throughput figure.

use vstd::prelude::*;
use vstd::arithmetic::div_mod::lemma_div_multiples_vanish_quotient;

verus! {

/// Nanoseconds in a second.
pub const NANOS_PER_SECOND: u64 = 1_000_000_000;

/// The factor between a count per nanosecond and thousands per second.
pub const KILO_PER_SECOND: u64 = 1_000_000;

/// A span of `secs` whole seconds and `subsec_nanos` nanoseconds, in
/// nanoseconds.
pub open spec fn nanos_of(secs: u64, subsec_nanos: u32) -> int {
    secs * NANOS_PER_SECOND + subsec_nanos
}

/// The throughput, in thousands of units per second, of `total` units in
/// `elapsed_nanos` nanoseconds, rounded down.
pub open spec fn rate(total: int, elapsed_nanos: int) -> int {
    (total * KILO_PER_SECOND) / elapsed_nanos
}

/// A span of `secs` whole seconds and `subsec_nanos` nanoseconds, in
/// nanoseconds; `None` when a `u64` cannot hold it.
pub fn elapsed_nanos(secs: u64, subsec_nanos: u32) -> (r: Option<u64>)
    ensures
        r == if nanos_of(secs, subsec_nanos) <= u64::MAX {
            Some(nanos_of(secs, subsec_nanos) as u64)
        } else {
            None::<u64>
        },
{
    match secs.checked_mul(NANOS_PER_SECOND) {
        Some(whole) => whole.checked_add(subsec_nanos as u64),
        None => None,
    }
}

/// The throughput, in thousands of units per second, of `total` units in
/// `elapsed_nanos` nanoseconds; `None` when no time has elapsed or a `u64`
/// cannot hold the figure.
pub fn throughput(total: u64, elapsed_nanos: u64) -> (r: Option<u64>)
    ensures
        r == if elapsed_nanos > 0 && rate(total as int, elapsed_nanos as int) <= u64::MAX {
            Some(rate(total as int, elapsed_nanos as int) as u64)
        } else {
            None::<u64>
        },
{
    if elapsed_nanos == 0 {
        return None;
    }
    assert(total * KILO_PER_SECOND <= u64::MAX * KILO_PER_SECOND) by (nonlinear_arith);
    let scaled: u128 = total as u128 * KILO_PER_SECOND as u128;
    let figure: u128 = scaled / elapsed_nanos as u128;
    if figure > u64::MAX as u128 {
        None
    } else {
        Some(figure as u64)
    }
}

/// The throughput does not depend on how many passes the measurement is
/// summed over: `k` passes of `total` units that take `elapsed_nanos` each
/// give the figure of a single pass.
pub proof fn lemma_rate_scale_invariant(total: int, elapsed_nanos: int, k: int)
    requires
        0 <= total,
        0 < elapsed_nanos,
        0 < k,
    ensures
        rate(k * total, k * elapsed_nanos) == rate(total, elapsed_nanos),
{
    assert((k * total) * KILO_PER_SECOND == k * (total * KILO_PER_SECOND)) by (nonlinear_arith);
    assert(0 <= total * KILO_PER_SECOND) by (nonlinear_arith)
        requires
            0 <= total,
    ;
    lemma_div_multiples_vanish_quotient(k, total * KILO_PER_SECOND, elapsed_nanos);
}

} // verus!
