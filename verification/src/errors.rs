//! The error taxonomy of a measurement run.
//!
//! Every variant here is fatal for the run except the eviction advisory,
//! which has no error of its own: the page-reclaim hint is best-effort, its
//! rejection is silently tolerated, and no result depends on it.

use vstd::prelude::*;

verus! {

/// The backing file could not be opened, created or sized. Fatal: the run is
/// aborted before any measurement.
#[derive(Clone, Copy, Debug, PartialEq, Eq, Structural)]
pub enum SetupError {
    /// The backing file could not be opened or created.
    OpenFailed,
    /// The backing file could not be truncated or extended to the working-set
    /// size.
    ResizeFailed,
    /// The requested working-set size is not a whole number of 8-byte words,
    /// so no pass could cover it exactly.
    UnalignedSize,
}

impl SetupError {
    /// A fixed diagnostic line for the reporting layer.
    pub fn describe(&self) -> (r: &'static str)
        ensures
            r@ == match *self {
                SetupError::OpenFailed => "couldn't open file"@,
                SetupError::ResizeFailed => "couldn't size file"@,
                SetupError::UnalignedSize => "working-set size is not a multiple of 8"@,
            },
    {
        match self {
            SetupError::OpenFailed => "couldn't open file",
            SetupError::ResizeFailed => "couldn't size file",
            SetupError::UnalignedSize => "working-set size is not a multiple of 8",
        }
    }
}

/// The mapping over the backing store could not be established or torn down.
/// Fatal: the run is aborted.
#[derive(Clone, Copy, Debug, PartialEq, Eq, Structural)]
pub enum MappingError {
    /// A mapping of size 0 was requested; there is nothing to map.
    EmptyRegion,
    /// The backing file descriptor is not valid for mapping.
    InvalidDescriptor,
    /// The operating system denied the mapping (address space, permissions).
    OsDenied,
}

impl MappingError {
    /// A fixed diagnostic line for the reporting layer.
    pub fn describe(&self) -> (r: &'static str)
        ensures
            r@ == match *self {
                MappingError::EmptyRegion => "mmap failed: region size is 0"@,
                MappingError::InvalidDescriptor => "mmap failed: bad file descriptor"@,
                MappingError::OsDenied => "mmap failed"@,
            },
    {
        match self {
            MappingError::EmptyRegion => "mmap failed: region size is 0",
            MappingError::InvalidDescriptor => "mmap failed: bad file descriptor",
            MappingError::OsDenied => "mmap failed",
        }
    }
}

/// The synchronous flush of a written region could not complete. Fatal: with
/// the durability of the pages unknown, no later sample would mean anything.
#[derive(Clone, Copy, Debug, PartialEq, Eq, Structural)]
pub enum FlushError {
    /// The synchronous flush reported failure.
    SyncFailed,
}

impl FlushError {
    /// A fixed diagnostic line for the reporting layer.
    pub fn describe(&self) -> (r: &'static str)
        ensures
            r@ == "msync failed"@,
    {
        "msync failed"
    }
}

} // verus!
