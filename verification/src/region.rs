//! The backing store and the mapped region over it, modeled at word level.
//!
//! A [`BackingStore`] is the contents of the backing file, as 64-bit words. A
//! [`Region`] is a live shared, read-write mapping of the whole store:
//! because the mapping is shared, every write lands in the store, so the
//! model lets the region own the store's words for as long as the mapping is
//! alive. Mapping consumes the store and unmapping returns it, which makes
//! "exactly one live mapping per store" a fact of ownership rather than a
//! run-time check.

use vstd::prelude::*;
use crate::errors::{MappingError, SetupError};
use crate::passes::{filled, WritePass};
use crate::sum::wrapping_sum;

verus! {

/// The backing file's contents, as a flat run of 64-bit words.
#[derive(Debug)]
pub struct BackingStore {
    words: Vec<u64>,
}

impl View for BackingStore {
    type V = Seq<u64>;

    closed spec fn view(&self) -> Seq<u64> {
        self.words@
    }
}

impl BackingStore {
    /// Models creating the backing file and truncating or extending it to
    /// exactly `size_bytes`: a store of `size_bytes / 8` zero words. Sizes
    /// that are not a whole number of words are unsupported and rejected.
    pub fn create(size_bytes: usize) -> (r: Result<BackingStore, SetupError>)
        ensures
            r is Ok <==> size_bytes % 8 == 0,
            r is Ok ==> r->Ok_0@ == Seq::new((size_bytes / 8) as nat, |i: int| 0u64),
            r is Err ==> r->Err_0 == SetupError::UnalignedSize,
    {
        if size_bytes % 8 != 0 {
            return Err(SetupError::UnalignedSize);
        }
        let n = size_bytes / 8;
        let mut words: Vec<u64> = Vec::new();
        for j in 0..n
            invariant
                words@.len() == j,
                forall|k: int| 0 <= k < j ==> words@[k] == 0u64,
        {
            words.push(0u64);
        }
        proof {
            assert(words@ =~= Seq::new((size_bytes / 8) as nat, |i: int| 0u64));
        }
        Ok(BackingStore { words })
    }

    /// How many words the store holds.
    pub fn word_count(&self) -> (n: usize)
        ensures
            n == self@.len(),
    {
        self.words.len()
    }

    /// The wrapping checksum of the store's current contents — what a read
    /// pass over a fresh mapping of it would accumulate.
    pub fn checksum(&self) -> (sum: u64)
        ensures
            sum == wrapping_sum(self@),
    {
        crate::passes::checksum_words(self.words.as_slice())
    }
}

/// A live shared, read-write mapping of a whole backing store.
#[derive(Debug)]
pub struct Region {
    words: Vec<u64>,
}

impl View for Region {
    type V = Seq<u64>;

    closed spec fn view(&self) -> Seq<u64> {
        self.words@
    }
}

impl Region {
    /// Establishes the mapping: a window of exactly the store's size, shared
    /// (writes visible to the store) and read-write, at an address of the
    /// provisioner's choosing. Consuming the store keeps a second concurrent
    /// mapping of it from ever existing. A request for a mapping of size 0
    /// fails: there is nothing to map.
    pub fn map(store: BackingStore) -> (r: Result<Region, MappingError>)
        ensures
            r is Ok <==> store@.len() > 0,
            r is Ok ==> r->Ok_0@ == store@,
            r is Err ==> r->Err_0 == MappingError::EmptyRegion,
    {
        if store.word_count() == 0 {
            return Err(MappingError::EmptyRegion);
        }
        let BackingStore { words } = store;
        Ok(Region { words })
    }

    /// Tears the mapping down. The mapping was shared, so the store comes
    /// back holding exactly the words the region last held; the region and
    /// anything derived from it are gone for good, by ownership.
    pub fn unmap(self) -> (store: BackingStore)
        ensures
            store@ == self@,
    {
        let Region { words } = self;
        BackingStore { words }
    }

    /// How many words the mapping covers.
    pub fn word_count(&self) -> (n: usize)
        ensures
            n == self@.len(),
    {
        self.words.len()
    }

    /// Timed write pass over the whole mapping: fills every word with
    /// `pattern` in ascending order and reports the elapsed milliseconds. In
    /// this in-memory model the mapping's words are the store's words, so
    /// when `to_disk` is set the synchronous flush has nothing left to
    /// transfer, and when `evict` is also set the page-eviction advisory has
    /// nothing to drop; neither flag ever affects the contents, which is
    /// exactly what a caller may rely on.
    pub fn write_and_measure(&mut self, pattern: u64, to_disk: bool, evict: bool) -> (elapsed: u128)
        ensures
            final(self)@ == filled(old(self)@.len(), pattern),
    {
        let pass = WritePass::begin(self.words.as_mut_slice(), pattern, to_disk, evict);
        pass.finish()
    }

    /// Timed read pass over the whole mapping: elapsed milliseconds and the
    /// wrapping checksum of everything read.
    pub fn read_and_measure(&self) -> (r: (u128, u64))
        ensures
            r.1 == wrapping_sum(self@),
    {
        crate::passes::read_and_measure(self.words.as_slice())
    }

    /// The wrapping checksum of the mapped contents, without timing.
    pub fn checksum(&self) -> (sum: u64)
        ensures
            sum == wrapping_sum(self@),
    {
        crate::passes::checksum_words(self.words.as_slice())
    }
}

/// The unmap-then-remap cycle the orchestrator performs before its final
/// read: tear the mapping down and map the same, unmodified store again,
/// forcing fresh page-table entries. The remapped region holds exactly the
/// prior contents, so a read pass after the cycle returns the same checksum
/// as one before it.
pub fn unmap_and_remap(region: Region) -> (r: Region)
    requires
        region@.len() > 0,
    ensures
        r@ == region@,
        wrapping_sum(r@) == wrapping_sum(region@),
{
    let store = region.unmap();
    match Region::map(store) {
        Ok(remapped) => remapped,
        Err(_) => vstd::pervasive::unreached(),
    }
}

} // verus!
