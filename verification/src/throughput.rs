//! Bandwidth derivation: elapsed milliseconds into an MB/s figure.

use vstd::prelude::*;

verus! {

/// The MB/s figure for a pass that moved `total_bytes` in `elapsed_millis`:
/// `total_bytes / (elapsed_millis * 1000)`, rounded down.
pub open spec fn spec_throughput(total_bytes: u64, elapsed_millis: u128) -> int
    recommends
        elapsed_millis > 0,
{
    total_bytes as int / ((elapsed_millis as int) * 1000)
}

/// Throughput of one pass in MB/s. A very fast pass can round to an elapsed
/// time of zero milliseconds; that case must not fault on an unguarded
/// divide, so it reports `None` ("elapsed too small to measure") and every
/// positive elapsed time reports the exact quotient.
pub fn throughput_mb_per_s(total_bytes: u64, elapsed_millis: u128) -> (r: Option<u128>)
    ensures
        r is Some <==> elapsed_millis > 0,
        r is Some ==> r->Some_0 == spec_throughput(total_bytes, elapsed_millis),
{
    if elapsed_millis == 0 {
        None
    } else if elapsed_millis > u64::MAX as u128 {
        // The divisor alone exceeds any 64-bit byte count: the quotient is 0.
        proof {
            assert((total_bytes as int) < (elapsed_millis as int) * 1000) by (nonlinear_arith)
                requires total_bytes <= u64::MAX && elapsed_millis > u64::MAX as u128;
            vstd::arithmetic::div_mod::lemma_basic_div(
                total_bytes as int,
                (elapsed_millis as int) * 1000,
            );
        }
        Some(0)
    } else {
        Some((total_bytes as u128) / (elapsed_millis * 1000))
    }
}

} // verus!
