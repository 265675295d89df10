//! Scenario tests that drive whole comparisons over in-memory contents.

use core::cmp::Ordering;
use lazycmp::cursor::CmpError;
use lazycmp::cursor::CompareStep;
use lazycmp::cursor::HashIter;
use lazycmp::hasher::Hasher;
use lazycmp::identity::FileContent;
use lazycmp::identity::Metadata;
use lazycmp::identity::StartStep;
use lazycmp::range::HashedRange;

/// An in-memory stand-in for a file on disk: content, an optional point
/// from which reads fail, and a log of the spans actually read.
struct MemFile {
    data: Vec<u8>,
    fail_from: Option<u64>,
    reads: Vec<(u64, u64)>,
}

impl MemFile {
    fn new(data: Vec<u8>) -> MemFile {
        MemFile { data, fail_from: None, reads: Vec::new() }
    }

    /// Hand back the bytes of the span that exist, shorter when the content
    /// ends early, or nothing when the span touches the failing region.
    fn read(&mut self, offset: u64, size: u64) -> Option<Vec<u8>> {
        if let Some(f) = self.fail_from {
            if offset + size > f {
                return None;
            }
        }
        self.reads.push((offset, size));
        let len = self.data.len() as u64;
        let start = offset.min(len) as usize;
        let end = (offset + size).min(len) as usize;
        Some(self.data[start..end].to_vec())
    }
}

fn identity_for(path: &str, mem: &MemFile, dev: u64) -> FileContent {
    FileContent::new(
        String::from(path),
        Metadata { size: mem.data.len() as u64, dev },
    )
}

/// Drive one comparison to its end, reading from the two in-memory files
/// whenever the cursor asks for a span.
fn drive(
    a: &mut FileContent,
    am: &mut MemFile,
    b: &mut FileContent,
    bm: &mut MemFile,
) -> Result<Ordering, CmpError> {
    match a.compare_begin(b) {
        StartStep::Decided(o) => Ok(o),
        StartStep::Content(mut it) => loop {
            match a.compare_step(b, &mut it) {
                CompareStep::Decided(o) => return Ok(o),
                CompareStep::Fail(e) => return Err(e),
                CompareStep::Need(req) => {
                    if req.need_a {
                        let outcome = am
                            .read(req.offset, req.size)
                            .map(|d| HashedRange::from_bytes(req.size, &d));
                        a.record(outcome);
                    }
                    if req.need_b {
                        let outcome = bm
                            .read(req.offset, req.size)
                            .map(|d| HashedRange::from_bytes(req.size, &d));
                        b.record(outcome);
                    }
                }
            }
        },
    }
}

fn pattern(len: usize) -> Vec<u8> {
    (0..len).map(|i| (i * 31 % 251) as u8).collect()
}

#[test]
fn reflexive_across_two_identities_over_one_path() {
    let content = pattern(5000);
    let mut am = MemFile::new(content.clone());
    let mut bm = MemFile::new(content);
    let mut a = identity_for("dir/same", &am, 7);
    let mut b = identity_for("dir/same", &bm, 7);
    assert_eq!(drive(&mut a, &mut am, &mut b, &mut bm), Ok(Ordering::Equal));
}

#[test]
fn empty_files_compare_equal_without_reads() {
    let mut am = MemFile::new(Vec::new());
    let mut bm = MemFile::new(Vec::new());
    let mut a = identity_for("a", &am, 1);
    let mut b = identity_for("b", &bm, 1);
    assert_eq!(drive(&mut a, &mut am, &mut b, &mut bm), Ok(Ordering::Equal));
    assert!(am.reads.is_empty());
    assert!(bm.reads.is_empty());
}

#[test]
fn antisymmetry_of_content_order() {
    let mut small = pattern(4096);
    let mut big = small.clone();
    small[4000] = 1;
    big[4000] = 2;

    let mut am = MemFile::new(small.clone());
    let mut bm = MemFile::new(big.clone());
    let mut a = identity_for("a", &am, 1);
    let mut b = identity_for("b", &bm, 1);
    let ab = drive(&mut a, &mut am, &mut b, &mut bm).unwrap();

    let mut am2 = MemFile::new(small);
    let mut bm2 = MemFile::new(big);
    let mut a2 = identity_for("a", &am2, 1);
    let mut b2 = identity_for("b", &bm2, 1);
    let ba = drive(&mut b2, &mut bm2, &mut a2, &mut am2).unwrap();

    assert_ne!(ab, Ordering::Equal);
    assert_eq!(ba, ab.reverse());
}

#[test]
fn antisymmetry_of_metadata_order() {
    let mut am = MemFile::new(pattern(10));
    let mut bm = MemFile::new(pattern(20));
    let mut a = identity_for("a", &am, 1);
    let mut b = identity_for("b", &bm, 1);
    assert_eq!(drive(&mut a, &mut am, &mut b, &mut bm), Ok(Ordering::Less));
    assert_eq!(drive(&mut b, &mut bm, &mut a, &mut am), Ok(Ordering::Greater));
}

#[test]
fn transitivity_of_equality() {
    let content = pattern(100_000);
    let mut am = MemFile::new(content.clone());
    let mut bm = MemFile::new(content.clone());
    let mut cm = MemFile::new(content);
    let mut a = identity_for("a", &am, 1);
    let mut b = identity_for("b", &bm, 1);
    let mut c = identity_for("c", &cm, 1);
    assert_eq!(drive(&mut a, &mut am, &mut b, &mut bm), Ok(Ordering::Equal));
    assert_eq!(drive(&mut b, &mut bm, &mut c, &mut cm), Ok(Ordering::Equal));
    assert_eq!(drive(&mut a, &mut am, &mut c, &mut cm), Ok(Ordering::Equal));
}

#[test]
fn size_short_circuit_reads_no_bytes() {
    let mut am = MemFile::new(pattern(1000));
    let mut bm = MemFile::new(pattern(2000));
    let mut a = identity_for("a", &am, 1);
    let mut b = identity_for("b", &bm, 1);
    assert_eq!(drive(&mut a, &mut am, &mut b, &mut bm), Ok(Ordering::Less));
    assert!(am.reads.is_empty());
    assert!(bm.reads.is_empty());
}

#[test]
fn device_difference_reads_no_bytes() {
    let content = pattern(1000);
    let mut am = MemFile::new(content.clone());
    let mut bm = MemFile::new(content);
    let mut a = identity_for("a", &am, 1);
    let mut b = identity_for("b", &bm, 2);
    assert_ne!(
        drive(&mut a, &mut am, &mut b, &mut bm),
        Ok(Ordering::Equal)
    );
    assert!(am.reads.is_empty());
    assert!(bm.reads.is_empty());
}

#[test]
fn cache_reuse_never_rehashes_a_cached_span() {
    let content = pattern(300_000);
    let mut am = MemFile::new(content.clone());
    let mut bm = MemFile::new(content.clone());
    let mut cm = MemFile::new(content);
    let mut a = identity_for("a", &am, 1);
    let mut b = identity_for("b", &bm, 1);
    let mut c = identity_for("c", &cm, 1);

    assert_eq!(drive(&mut a, &mut am, &mut b, &mut bm), Ok(Ordering::Equal));
    let reads_of_a = am.reads.clone();
    assert!(!reads_of_a.is_empty());

    // A second comparison against a fresh peer reuses every range cached
    // for `a`: only `c` is read.
    assert_eq!(drive(&mut a, &mut am, &mut c, &mut cm), Ok(Ordering::Equal));
    assert_eq!(am.reads, reads_of_a);
    assert_eq!(cm.reads, reads_of_a);
}

#[test]
fn growth_schedule_on_identical_ten_mib_files() {
    let content = pattern(10 * 1024 * 1024);
    let mut am = MemFile::new(content.clone());
    let mut bm = MemFile::new(content);
    let mut a = identity_for("a", &am, 1);
    let mut b = identity_for("b", &bm, 1);
    assert_eq!(drive(&mut a, &mut am, &mut b, &mut bm), Ok(Ordering::Equal));

    // Chunks start at 2048 bytes and grow sixteenfold, the last one capped
    // by the bytes remaining; offsets are cumulative.
    let expected = vec![
        (0, 2048),
        (2048, 32768),
        (34816, 524288),
        (559104, 8388608),
        (8947712, 1538048),
    ];
    assert_eq!(am.reads, expected);
    assert_eq!(bm.reads, expected);
}

#[test]
fn late_difference_found_in_the_chunk_that_holds_it() {
    let base = pattern(1024 * 1024);
    let mut changed = base.clone();
    changed[1024 * 1024 - 1] ^= 0xff;

    let mut am = MemFile::new(base);
    let mut bm = MemFile::new(changed);
    let mut a = identity_for("a", &am, 1);
    let mut b = identity_for("b", &bm, 1);
    let verdict = drive(&mut a, &mut am, &mut b, &mut bm).unwrap();
    assert_ne!(verdict, Ordering::Equal);

    // Logarithmically few steps: the whole megabyte is covered in four
    // growing chunks, and the difference surfaces in the last one.
    let expected = vec![(0, 2048), (2048, 32768), (34816, 524288), (559104, 489472)];
    assert_eq!(am.reads, expected);
    assert_eq!(bm.reads, expected);
}

#[test]
fn read_failure_errors_once_and_then_fails_fast() {
    let content = pattern(200_000);
    let mut am = MemFile::new(content.clone());
    let mut bm = MemFile::new(content);
    bm.fail_from = Some(100_000);
    let mut a = identity_for("a", &am, 1);
    let mut b = identity_for("b", &bm, 1);

    assert_eq!(
        drive(&mut a, &mut am, &mut b, &mut bm),
        Err(CmpError::ReadError)
    );
    let reads_a = am.reads.clone();
    let reads_b = bm.reads.clone();

    // The failed span is marked permanently: the same pair fails again at
    // once, with no further access to either side.
    assert_eq!(
        drive(&mut a, &mut am, &mut b, &mut bm),
        Err(CmpError::ReadError)
    );
    assert_eq!(am.reads, reads_a);
    assert_eq!(bm.reads, reads_b);
}

#[test]
fn growth_schedule_caps_at_128_mib() {
    // Drive the cursor directly with synthetic equal ranges, so the cap is
    // reached without allocating gigabytes: chunk proposals grow sixteenfold
    // and then stay at 128 MiB.
    let mut a = Hasher::new();
    let mut b = Hasher::new();
    let mut it = HashIter::new(u64::MAX);
    let mut sizes = Vec::new();
    for _ in 0..6 {
        match a.compare(&b, &mut it) {
            CompareStep::Need(req) => {
                sizes.push(req.size);
                let range = HashedRange::from_bytes(req.size, b"stand-in chunk");
                if req.need_a {
                    a.push(Some(range));
                }
                if req.need_b {
                    b.push(Some(range));
                }
            }
            other => panic!("unexpected step: {:?}", other),
        }
    }
    assert_eq!(
        sizes,
        vec![2048, 32768, 524288, 8388608, 134217728, 134217728]
    );
}

#[test]
fn disagreeing_cached_sizes_are_an_inconsistency() {
    let mut a = Hasher::new();
    let mut b = Hasher::new();
    a.push(Some(HashedRange::from_bytes(10, b"x")));
    b.push(Some(HashedRange::from_bytes(20, b"x")));
    let mut it = HashIter::new(100);
    assert_eq!(
        a.compare(&b, &mut it),
        CompareStep::Fail(CmpError::InconsistentRangeSize)
    );
}

#[test]
fn cached_range_past_the_end_is_an_inconsistency() {
    let mut a = Hasher::new();
    let mut b = Hasher::new();
    a.push(Some(HashedRange::from_bytes(200, b"x")));
    b.push(Some(HashedRange::from_bytes(200, b"x")));
    let mut it = HashIter::new(100);
    assert_eq!(
        a.compare(&b, &mut it),
        CompareStep::Fail(CmpError::InconsistentRangeSize)
    );
}

#[test]
fn failed_comparison_resolves_as_greater() {
    assert_eq!(
        CompareStep::Fail(CmpError::ReadError).resolve(),
        Some(Ordering::Greater)
    );
    assert_eq!(
        CompareStep::Fail(CmpError::InconsistentRangeSize).resolve(),
        Some(Ordering::Greater)
    );
    assert_eq!(
        CompareStep::Decided(Ordering::Less).resolve(),
        Some(Ordering::Less)
    );
}

#[test]
fn truncated_content_differs_from_intact_copy() {
    // Both snapshots claim 600 bytes, but one file lost its tail after the
    // snapshot was taken: the short read is hashed as obtained, under the
    // requested span length, and the contents compare as different.
    let full = pattern(600);
    let mut truncated = full.clone();
    truncated.truncate(300);

    let mut am = MemFile::new(full.clone());
    let mut bm = MemFile::new(truncated);
    let mut a = FileContent::new(String::from("a"), Metadata { size: 600, dev: 1 });
    let mut b = FileContent::new(String::from("b"), Metadata { size: 600, dev: 1 });
    let verdict = drive(&mut a, &mut am, &mut b, &mut bm).unwrap();
    assert_ne!(verdict, Ordering::Equal);
}
