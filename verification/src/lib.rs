//! Single-threaded memory/disk bandwidth measurement library.
//!
//! The library models a file-backed, shared, read-write memory mapping as a
//! flat buffer of 64-bit words, and verifies the measurement pipeline that
//! runs over it: timed sequential write passes (with optional flush-to-disk
//! and page-eviction requests), timed sequential read passes that fold every
//! word into a wrapping checksum, the fixed seven-sample measurement
//! protocol, and the guarded throughput computation.

use vstd::prelude::*;

pub mod errors;
pub mod passes;
pub mod protocol;
pub mod region;
pub mod sum;
pub mod throughput;
pub mod timing;

verus! {

/// One mebibyte, in bytes.
pub const MB: u64 = 1024 * 1024;

/// One gibibyte, in bytes.
pub const GB: u64 = 1024 * MB;

/// Size in bytes of the full working set a default run measures.
pub const TO_WRITE: u64 = 8 * GB;

/// Fill pattern for the first write pass (`&` bytes).
pub const AMP: u64 = 0x2626262626262626;

/// Fill pattern for the second write pass (`$` bytes).
pub const DOLLAR: u64 = 0x2424242424242424;

/// Fill pattern for the flush-and-evict write pass (`%` bytes).
pub const PERC: u64 = 0x2525252525252525;

/// Fill pattern for the flush-only write pass (`#` bytes).
pub const HASH: u64 = 0x2323232323232323;

} // verus!
