use membench::errors::{FlushError, MappingError, SetupError};
use membench::protocol::{pass_plan, run, PassSpec};
use membench::region::{unmap_and_remap, BackingStore, Region};
use membench::{AMP, DOLLAR, PERC};

#[test]
fn fresh_store_is_zero_filled() {
    let store = BackingStore::create(80).unwrap();
    assert_eq!(store.word_count(), 10);
    assert_eq!(store.checksum(), 0);
    let region = Region::map(store).unwrap();
    assert_eq!(region.word_count(), 10);
    let (_elapsed, sum) = region.read_and_measure();
    assert_eq!(sum, 0);
}

#[test]
fn store_rejects_partial_words() {
    assert_eq!(BackingStore::create(13).unwrap_err(), SetupError::UnalignedSize);
    assert_eq!(BackingStore::create(12).unwrap_err(), SetupError::UnalignedSize);
    assert!(BackingStore::create(16).is_ok());
}

#[test]
fn mapping_size_zero_fails() {
    // A mapping of size 0 must fail with a MappingError, never silently
    // succeed.
    let store = BackingStore::create(0).unwrap();
    match Region::map(store) {
        Err(e) => assert_eq!(e, MappingError::EmptyRegion),
        Ok(_) => panic!("a mapping of size 0 must not succeed"),
    }
}

#[test]
fn remap_preserves_the_checksum() {
    // Mapping, unmapping and remapping the same unmodified store reads back
    // the same checksum as before the cycle.
    let store = BackingStore::create(1024).unwrap();
    let mut region = Region::map(store).unwrap();
    let _elapsed = region.write_and_measure(DOLLAR, false, false);
    let before = region.checksum();
    let region = unmap_and_remap(region);
    assert_eq!(region.checksum(), before);
    let (_elapsed, sum) = region.read_and_measure();
    assert_eq!(sum, before);
}

#[test]
fn read_after_flush_and_evict_is_correct() {
    // Data correctness is independent of the eviction hint's fate: a read
    // pass after a flush-and-evict write still returns the pattern checksum.
    let store = BackingStore::create(2048).unwrap();
    let mut region = Region::map(store).unwrap();
    let _elapsed = region.write_and_measure(PERC, true, true);
    let (_elapsed, sum) = region.read_and_measure();
    assert_eq!(sum, 256u64.wrapping_mul(PERC));
}

#[test]
fn plan_is_the_fixed_seven_sample_protocol() {
    let plan = pass_plan();
    assert_eq!(plan.len(), 8);
    assert_eq!(plan[0], PassSpec::Write { pattern: AMP, to_disk: false, evict: false });
    assert_eq!(plan[1], PassSpec::Write { pattern: DOLLAR, to_disk: false, evict: false });
    assert_eq!(plan[2], PassSpec::Read);
    assert!(matches!(plan[3], PassSpec::Write { to_disk: true, evict: false, .. }));
    assert_eq!(plan[4], PassSpec::Write { pattern: PERC, to_disk: true, evict: true });
    assert_eq!(plan[5], PassSpec::Read);
    assert_eq!(plan[6], PassSpec::Remap);
    assert_eq!(plan[7], PassSpec::Read);
}

#[test]
fn full_run_produces_seven_samples_and_pinned_checksums() {
    let store = BackingStore::create(800).unwrap();
    let (report, after) = run(store).unwrap();
    assert_eq!(report.samples().len(), 7);
    assert_eq!(report.read_mapped_sum, 100u64.wrapping_mul(DOLLAR));
    assert_eq!(report.read_from_disk_sum, 100u64.wrapping_mul(PERC));
    assert_eq!(report.read_unmapped_sum, report.read_from_disk_sum);
    // The store survives the run holding the last flushed pattern.
    assert_eq!(after.checksum(), 100u64.wrapping_mul(PERC));
}

#[test]
fn two_sequential_runs_over_the_same_store() {
    // Both invocations complete with seven samples each, and the second run
    // starts from whatever the first run last wrote and flushed.
    let store = BackingStore::create(800).unwrap();
    let (first, store) = run(store).unwrap();
    assert_eq!(first.samples().len(), 7);

    // The second run's initial contents reflect the first run's last pattern.
    let region = Region::map(store).unwrap();
    let (_elapsed, initial_sum) = region.read_and_measure();
    assert_eq!(initial_sum, 100u64.wrapping_mul(PERC));
    let store = region.unmap();

    let (second, _store) = run(store).unwrap();
    assert_eq!(second.samples().len(), 7);
    assert_eq!(second.read_unmapped_sum, 100u64.wrapping_mul(PERC));
}

#[test]
fn run_fails_only_on_an_empty_store() {
    let store = BackingStore::create(0).unwrap();
    match run(store) {
        Err(e) => assert_eq!(e, MappingError::EmptyRegion),
        Ok(_) => panic!("a run over an empty store must not succeed"),
    }
    let store = BackingStore::create(8).unwrap();
    assert!(run(store).is_ok());
}

#[test]
fn error_descriptions_are_fixed() {
    assert_eq!(SetupError::OpenFailed.describe(), "couldn't open file");
    assert_eq!(SetupError::ResizeFailed.describe(), "couldn't size file");
    assert_eq!(
        SetupError::UnalignedSize.describe(),
        "working-set size is not a multiple of 8"
    );
    assert_eq!(MappingError::EmptyRegion.describe(), "mmap failed: region size is 0");
    assert_eq!(MappingError::InvalidDescriptor.describe(), "mmap failed: bad file descriptor");
    assert_eq!(MappingError::OsDenied.describe(), "mmap failed");
    assert_eq!(FlushError::SyncFailed.describe(), "msync failed");
}
