//! The fixed seven-sample measurement protocol and its orchestrator.
//!
//! A run drives one backing store through a strict sequence of lifecycle
//! states — fresh mapping, dirty pages, flushed pages, flushed-and-evicted
//! pages, remapped-from-cache pages — and takes one timing sample per pass.
//! Later steps observe the side effects of earlier ones, so the order is
//! fixed and never parallel.

use vstd::prelude::*;
use crate::{AMP, DOLLAR, HASH, PERC};
use crate::errors::MappingError;
use crate::passes::filled;
use crate::region::{unmap_and_remap, BackingStore, Region};
use crate::sum::wrapping_sum;

verus! {

/// One step of the fixed protocol, as an instruction to whoever holds the
/// live mapping.
#[derive(Clone, Copy, Debug, PartialEq, Eq, Structural)]
pub enum PassSpec {
    /// Timed write pass: fill the whole region with `pattern`; if `to_disk`
    /// is set, flush it synchronously before stopping the clock; if `evict`
    /// is also set, request page eviction as well (best-effort).
    Write { pattern: u64, to_disk: bool, evict: bool },
    /// Timed read pass over the whole region, yielding a checksum.
    Read,
    /// Unmap the region, then map the same store again, so the next read
    /// runs over fresh page-table entries.
    Remap,
}

/// The fixed protocol: two plain write passes, a read while everything is
/// resident, a flush write, a flush-and-evict write, a read that may re-fault
/// from storage, and — after an unmap/remap cycle — a read over fresh page
/// tables. The three reads yield, in order, the samples `read_mapped`,
/// `read_from_disk` and `read_unmapped`; the four writes yield
/// `write_unmapped`, `write_mapped`, `write_and_sync` and
/// `write_and_sync_flush`.
pub open spec fn protocol_plan() -> Seq<PassSpec> {
    seq![
        PassSpec::Write { pattern: AMP, to_disk: false, evict: false },
        PassSpec::Write { pattern: DOLLAR, to_disk: false, evict: false },
        PassSpec::Read,
        PassSpec::Write { pattern: HASH, to_disk: true, evict: false },
        PassSpec::Write { pattern: PERC, to_disk: true, evict: true },
        PassSpec::Read,
        PassSpec::Remap,
        PassSpec::Read,
    ]
}

/// The fixed protocol as a value, for a driver that owns the real mapping.
pub fn pass_plan() -> (plan: Vec<PassSpec>)
    ensures
        plan@ == protocol_plan(),
{
    let mut plan: Vec<PassSpec> = Vec::new();
    plan.push(PassSpec::Write { pattern: AMP, to_disk: false, evict: false });
    plan.push(PassSpec::Write { pattern: DOLLAR, to_disk: false, evict: false });
    plan.push(PassSpec::Read);
    plan.push(PassSpec::Write { pattern: HASH, to_disk: true, evict: false });
    plan.push(PassSpec::Write { pattern: PERC, to_disk: true, evict: true });
    plan.push(PassSpec::Read);
    plan.push(PassSpec::Remap);
    plan.push(PassSpec::Read);
    proof {
        assert(plan@ =~= protocol_plan());
    }
    plan
}

/// The artifact of one full run: the seven timing samples, in measurement
/// order, and the checksums the three read passes accumulated.
#[derive(Clone, Copy, Debug)]
pub struct RunReport {
    /// Write pass over the fresh mapping, nothing forced to disk.
    pub write_unmapped: u128,
    /// Write pass over the now-warm mapping, nothing forced to disk.
    pub write_mapped: u128,
    /// Read pass while the data is resident.
    pub read_mapped: u128,
    /// Write pass followed by a synchronous flush.
    pub write_and_sync: u128,
    /// Write pass followed by a synchronous flush and an eviction request.
    pub write_and_sync_flush: u128,
    /// Read pass after the flush-and-evict write.
    pub read_from_disk: u128,
    /// Read pass over a fresh mapping of the same store.
    pub read_unmapped: u128,
    /// Checksum accumulated by the `read_mapped` pass.
    pub read_mapped_sum: u64,
    /// Checksum accumulated by the `read_from_disk` pass.
    pub read_from_disk_sum: u64,
    /// Checksum accumulated by the `read_unmapped` pass.
    pub read_unmapped_sum: u64,
}

impl RunReport {
    /// The seven timing samples, in measurement order.
    pub fn samples(&self) -> (s: Vec<u128>)
        ensures
            s@ == seq![
                self.write_unmapped,
                self.write_mapped,
                self.read_mapped,
                self.write_and_sync,
                self.write_and_sync_flush,
                self.read_from_disk,
                self.read_unmapped,
            ],
            s@.len() == 7,
    {
        let mut s: Vec<u128> = Vec::new();
        s.push(self.write_unmapped);
        s.push(self.write_mapped);
        s.push(self.read_mapped);
        s.push(self.write_and_sync);
        s.push(self.write_and_sync_flush);
        s.push(self.read_from_disk);
        s.push(self.read_unmapped);
        proof {
            assert(s@ =~= seq![
                self.write_unmapped,
                self.write_mapped,
                self.read_mapped,
                self.write_and_sync,
                self.write_and_sync_flush,
                self.read_from_disk,
                self.read_unmapped,
            ]);
        }
        s
    }
}

/// Drives the full protocol over one backing store, in memory, and returns
/// the report together with the store, which survives the run holding the
/// last pattern written — the flush-and-evict pass's fill. A store of size 0
/// cannot be mapped and fails the run; any other store completes all seven
/// samples.
///
/// The three read checksums are pinned by the contract: the first reads the
/// second write's fill, and the last two read the flush-and-evict write's
/// fill and agree with each other, whatever became of the flush and eviction
/// requests and despite the unmap/remap cycle before the final read.
pub fn run(store: BackingStore) -> (r: Result<(RunReport, BackingStore), MappingError>)
    ensures
        r is Ok <==> store@.len() > 0,
        r is Err ==> r->Err_0 == MappingError::EmptyRegion,
        r is Ok ==> r->Ok_0.1@ == filled(store@.len(), PERC),
        r is Ok ==> r->Ok_0.0.read_mapped_sum == wrapping_sum(filled(store@.len(), DOLLAR)),
        r is Ok ==> r->Ok_0.0.read_from_disk_sum == wrapping_sum(filled(store@.len(), PERC)),
        r is Ok ==> r->Ok_0.0.read_unmapped_sum == r->Ok_0.0.read_from_disk_sum,
{
    let mut region = match Region::map(store) {
        Ok(region) => region,
        Err(e) => {
            return Err(e);
        },
    };
    let write_unmapped = region.write_and_measure(AMP, false, false);
    let write_mapped = region.write_and_measure(DOLLAR, false, false);
    let (read_mapped, read_mapped_sum) = region.read_and_measure();
    let write_and_sync = region.write_and_measure(HASH, true, false);
    let write_and_sync_flush = region.write_and_measure(PERC, true, true);
    let (read_from_disk, read_from_disk_sum) = region.read_and_measure();
    let region = unmap_and_remap(region);
    let (read_unmapped, read_unmapped_sum) = region.read_and_measure();
    let after = region.unmap();
    let report = RunReport {
        write_unmapped,
        write_mapped,
        read_mapped,
        write_and_sync,
        write_and_sync_flush,
        read_from_disk,
        read_unmapped,
        read_mapped_sum,
        read_from_disk_sum,
        read_unmapped_sum,
    };
    Ok((report, after))
}

} // verus!
