//! Timed bulk write and read passes over a mapped region's words.
//!
//! A pass works on the region as a bounds-known `&[u64]` / `&mut [u64]`
//! window: all raw-address arithmetic stays with whoever provisioned the
//! mapping, and the loops here are verified against the window's contents.
//! Elapsed times are in whole milliseconds and non-negative by type.

use vstd::prelude::*;
use crate::sum::wrapping_sum;
use crate::timing;

verus! {

/// The contents of a region right after a write pass: every word holds the
/// fill pattern.
pub open spec fn filled(len: nat, pattern: u64) -> Seq<u64> {
    Seq::new(len, |i: int| pattern)
}

/// Writes `pattern` to every word of the region, sequentially in ascending
/// address order.
pub fn fill_words(words: &mut [u64], pattern: u64)
    ensures
        final(words)@ == filled(old(words)@.len(), pattern),
{
    let n = words.len();
    for i in 0..n
        invariant
            words@.len() == n,
            forall|j: int| 0 <= j < i ==> words@[j] == pattern,
    {
        words[i] = pattern;
    }
    proof {
        assert(words@ =~= filled(old(words)@.len(), pattern));
    }
}

/// Sequentially reads every word of the region in ascending address order and
/// folds each into a single wrapping accumulator. Returning the accumulator
/// keeps a real data dependency on every read, so no optimizer may drop the
/// traversal as dead code.
pub fn checksum_words(words: &[u64]) -> (sum: u64)
    ensures
        sum == wrapping_sum(words@),
{
    let n = words.len();
    let mut sum: u64 = 0;
    for i in 0..n
        invariant
            n == words@.len(),
            sum == wrapping_sum(words@.take(i as int)),
    {
        proof {
            assert(words@.take(i + 1).drop_last() =~= words@.take(i as int));
        }
        sum = sum.wrapping_add(*vstd::slice::slice_index_get(words, i));
    }
    proof {
        assert(words@.take(n as int) =~= words@);
    }
    sum
}

/// Round-trip fidelity of the write and read loops: for every working-set
/// size `s_bytes` divisible by 8, a write pass with fill pattern `v` followed
/// immediately by a read pass over the same mapping returns a checksum of
/// exactly `(s_bytes / 8) * v`, reduced by the accumulator's wrapping
/// arithmetic.
pub proof fn lemma_fill_then_read_checksum(s_bytes: nat, v: u64)
    requires
        s_bytes % 8 == 0,
    ensures
        wrapping_sum(filled(s_bytes / 8, v)) == ((s_bytes / 8) * v) % crate::sum::word_modulus(),
{
    crate::sum::lemma_constant_sum(s_bytes / 8, v);
}

/// A write pass whose stopwatch is still running.
///
/// The pass starts its clock, fills the region, and remembers which
/// durability work was requested; the caller performs that work (a
/// synchronous flush, a page-eviction advisory) on the real mapping and then
/// stops the clock with [`WritePass::finish`], so the elapsed figure covers
/// the fill plus any flush and eviction issued before the clock stopped.
pub struct WritePass {
    start: std::time::Instant,
    to_disk: bool,
    evict: bool,
}

impl WritePass {
    /// Whether a synchronous flush to the backing store was requested.
    pub closed spec fn flush_requested(&self) -> bool {
        self.to_disk
    }

    /// Whether a page-eviction advisory was requested.
    pub closed spec fn evict_requested(&self) -> bool {
        self.evict
    }

    /// Starts the clock and runs the sequential fill. The contents afterward
    /// are the full pattern fill whatever `to_disk` and `evict` were: neither
    /// a flush nor an eviction request changes the mapped words.
    pub fn begin(words: &mut [u64], pattern: u64, to_disk: bool, evict: bool) -> (pass: WritePass)
        ensures
            final(words)@ == filled(old(words)@.len(), pattern),
            pass.flush_requested() == to_disk,
            pass.evict_requested() == evict,
    {
        let start = timing::monotonic_now();
        fill_words(words, pattern);
        WritePass { start, to_disk, evict }
    }

    /// Whether the caller must issue a synchronous flush before finishing.
    pub fn wants_flush(&self) -> (r: bool)
        ensures
            r == self.flush_requested(),
    {
        self.to_disk
    }

    /// Whether the caller should issue a page-eviction advisory before
    /// finishing. The advisory is best-effort: its failure is tolerated and
    /// no contract here depends on whether the pages actually left the cache.
    pub fn wants_evict(&self) -> (r: bool)
        ensures
            r == self.evict_requested(),
    {
        self.evict
    }

    /// Stops the clock and reports the elapsed milliseconds of the pass.
    pub fn finish(self) -> u128 {
        timing::millis_since(&self.start)
    }
}

/// A timed write pass with no durability work: fills the region with
/// `pattern` and reports the elapsed milliseconds of the fill.
pub fn write_and_measure(words: &mut [u64], pattern: u64) -> (elapsed: u128)
    ensures
        final(words)@ == filled(old(words)@.len(), pattern),
{
    let pass = WritePass::begin(words, pattern, false, false);
    pass.finish()
}

/// A timed read pass: traverses the whole region and reports the elapsed
/// milliseconds together with the wrapping checksum of everything read.
pub fn read_and_measure(words: &[u64]) -> (r: (u128, u64))
    ensures
        r.1 == wrapping_sum(words@),
{
    let start = timing::monotonic_now();
    let sum = checksum_words(words);
    (timing::millis_since(&start), sum)
}

} // verus!
