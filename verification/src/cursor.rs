//! The pairwise comparison cursor: drives one comparison of two range
//! caches over `[0, total_size)`, choosing chunk sizes on an exponential
//! growth schedule and asking the caller to read whatever spans are not
//! cached yet.

use vstd::prelude::*;
use crate::hasher::Hasher;
use crate::range::HashedRange;
use crate::range::range_cmp;

verus! {

use core::cmp::Ordering;

/// First chunk size of the growth schedule: small, so that an early
/// difference is found after reading a few kilobytes.
pub const INITIAL_CHUNK_SIZE: u64 = 2048;

/// Ceiling of the growth schedule: 128 MiB per chunk.
pub const MAX_CHUNK_SIZE: u64 = 128 * 1024 * 1024;

/// Why a comparison could not be decided.
#[derive(Clone, Copy, PartialEq, Eq, Debug)]
pub enum CmpError {
    /// A range needed for the comparison carries the permanent failure
    /// marker: opening or reading the file failed when the range was first
    /// hashed, and it is never retried.
    ReadError,
    /// Cached state contradicts itself: the two caches disagree on the size
    /// of the range at one index, or a cached range runs past the end of the
    /// compared span. Unreachable when caches are only grown by comparisons
    /// over one fixed file size.
    InconsistentRangeSize,
}

/// A span of bytes the comparison needs next, and for which sides.
#[derive(Clone, Copy, PartialEq, Eq, Debug)]
pub struct ReadRequest {
    /// Byte offset of the span in both files.
    pub offset: u64,
    /// Length of the span in bytes.
    pub size: u64,
    /// The first side has no cached range at the current index.
    pub need_a: bool,
    /// The second side has no cached range at the current index.
    pub need_b: bool,
}

/// What one step of the cursor found.
#[derive(Clone, Copy, PartialEq, Eq, Debug)]
pub enum NextStep {
    /// The whole span `[0, total_size)` has been walked: nothing differed.
    Done,
    /// Both sides have the range at the current index; the cursor advanced
    /// past it.
    Pair(HashedRange, HashedRange),
    /// At least one side is missing the range at the current index. The
    /// cursor did not move; it asks the caller to hash this span.
    Need(ReadRequest),
    /// The comparison cannot proceed.
    Fail(CmpError),
}

/// Outcome of driving the cursor as far as the caches allow.
#[derive(Clone, Copy, PartialEq, Eq, Debug)]
pub enum CompareStep {
    /// The order of the two contents, `Equal` only after every byte of the
    /// span was hashed and matched.
    Decided(Ordering),
    /// More hashing is needed before a verdict; see `ReadRequest`.
    Need(ReadRequest),
    /// The comparison failed and will fail again without new I/O.
    Fail(CmpError),
}

/// Cursor state for one pairwise comparison over `[0, size)`.
#[derive(Clone, Copy, PartialEq, Eq, Debug)]
pub struct HashIter {
    /// Index of the next range to compare, the same in both caches.
    pub index: usize,
    /// Byte offset where that range starts: the sum of the sizes of the
    /// ranges already compared.
    pub start_offset: u64,
    /// Total size of the compared contents.
    pub end_offset: u64,
    /// Chunk size the growth schedule proposes for the next uncached range.
    pub next_buffer_size: u64,
}

/// The cursor a fresh comparison starts from.
pub open spec fn initial_cursor(size: u64) -> HashIter {
    HashIter { index: 0, start_offset: 0, end_offset: size, next_buffer_size: INITIAL_CHUNK_SIZE }
}

/// The smaller of two chunk sizes.
pub open spec fn spec_min64(a: u64, b: u64) -> u64 {
    if a <= b {
        a
    } else {
        b
    }
}

/// The cache has a range at index `i`.
pub open spec fn cached_at(h: Seq<Option<HashedRange>>, i: int) -> bool {
    0 <= i < h.len() && h[i] is Some
}

/// The cache has the permanent failure marker at index `i`.
pub open spec fn failed_at(h: Seq<Option<HashedRange>>, i: int) -> bool {
    0 <= i < h.len() && h[i] is None
}

/// The cursor after stepping past a range of `size` bytes: one index
/// further, the offset moved by the range's size, and the next chunk grown
/// sixteenfold up to the 128 MiB ceiling.
pub open spec fn advance(it: HashIter, size: u64) -> HashIter {
    HashIter {
        index: (it.index + 1) as usize,
        start_offset: (it.start_offset + size) as u64,
        end_offset: it.end_offset,
        next_buffer_size: if size >= MAX_CHUNK_SIZE / 16 {
            MAX_CHUNK_SIZE
        } else {
            (16 * size) as u64
        },
    }
}

/// What one step of the cursor finds, given the two caches. The chunk size
/// for an uncached span is taken from whichever side already has the range,
/// and from the growth schedule, capped by the bytes remaining, when neither
/// has it.
pub open spec fn step_result(
    a: Seq<Option<HashedRange>>,
    b: Seq<Option<HashedRange>>,
    it: HashIter,
) -> NextStep {
    if it.start_offset >= it.end_offset {
        NextStep::Done
    } else {
        let i = it.index as int;
        let remaining = (it.end_offset - it.start_offset) as u64;
        if failed_at(a, i) || failed_at(b, i) {
            NextStep::Fail(CmpError::ReadError)
        } else if cached_at(a, i) && cached_at(b, i) {
            let ra = a[i]->Some_0;
            let rb = b[i]->Some_0;
            if ra.size != rb.size || ra.size > remaining {
                NextStep::Fail(CmpError::InconsistentRangeSize)
            } else {
                NextStep::Pair(ra, rb)
            }
        } else if cached_at(a, i) {
            let ra = a[i]->Some_0;
            if ra.size > remaining {
                NextStep::Fail(CmpError::InconsistentRangeSize)
            } else {
                NextStep::Need(
                    ReadRequest { offset: it.start_offset, size: ra.size, need_a: false, need_b: true },
                )
            }
        } else if cached_at(b, i) {
            let rb = b[i]->Some_0;
            if rb.size > remaining {
                NextStep::Fail(CmpError::InconsistentRangeSize)
            } else {
                NextStep::Need(
                    ReadRequest { offset: it.start_offset, size: rb.size, need_a: true, need_b: false },
                )
            }
        } else {
            NextStep::Need(
                ReadRequest {
                    offset: it.start_offset,
                    size: spec_min64(remaining, it.next_buffer_size),
                    need_a: true,
                    need_b: true,
                },
            )
        }
    }
}

/// The cursor after one step: it moves only past a `Pair`.
pub open spec fn step_cursor(
    a: Seq<Option<HashedRange>>,
    b: Seq<Option<HashedRange>>,
    it: HashIter,
) -> HashIter {
    match step_result(a, b, it) {
        NextStep::Pair(ra, rb) => advance(it, ra.size),
        _ => it,
    }
}

impl HashIter {
    /// A fresh cursor over `[0, size)`, starting the growth schedule at
    /// 2048 bytes.
    pub fn new(size: u64) -> (r: HashIter)
        ensures
            r == initial_cursor(size),
    {
        HashIter {
            index: 0,
            start_offset: 0,
            end_offset: size,
            next_buffer_size: INITIAL_CHUNK_SIZE,
        }
    }

    /// One step: report the next pair of ranges, ask for a missing span, or
    /// stop. A span already cached on either side is never requested again.
    pub fn next(&mut self, a: &Hasher, b: &Hasher) -> (r: NextStep)
        ensures
            r == step_result(a@, b@, *old(self)),
            *final(self) == step_cursor(a@, b@, *old(self)),
    {
        if self.start_offset >= self.end_offset {
            return NextStep::Done;
        }
        let remaining = self.end_offset - self.start_offset;
        let a_entry = a.entry(self.index);
        let b_entry = b.entry(self.index);
        match (a_entry, b_entry) {
            (Some(None), _) | (_, Some(None)) => NextStep::Fail(CmpError::ReadError),
            (Some(Some(ra)), Some(Some(rb))) => {
                if ra.size != rb.size || ra.size > remaining {
                    NextStep::Fail(CmpError::InconsistentRangeSize)
                } else {
                    self.index = self.index + 1;
                    self.start_offset = self.start_offset + ra.size;
                    self.next_buffer_size = if ra.size >= MAX_CHUNK_SIZE / 16 {
                        MAX_CHUNK_SIZE
                    } else {
                        16 * ra.size
                    };
                    NextStep::Pair(ra, rb)
                }
            }
            (Some(Some(ra)), None) => {
                if ra.size > remaining {
                    NextStep::Fail(CmpError::InconsistentRangeSize)
                } else {
                    NextStep::Need(
                        ReadRequest {
                            offset: self.start_offset,
                            size: ra.size,
                            need_a: false,
                            need_b: true,
                        },
                    )
                }
            }
            (None, Some(Some(rb))) => {
                if rb.size > remaining {
                    NextStep::Fail(CmpError::InconsistentRangeSize)
                } else {
                    NextStep::Need(
                        ReadRequest {
                            offset: self.start_offset,
                            size: rb.size,
                            need_a: true,
                            need_b: false,
                        },
                    )
                }
            }
            (None, None) => {
                let size = if remaining <= self.next_buffer_size {
                    remaining
                } else {
                    self.next_buffer_size
                };
                NextStep::Need(
                    ReadRequest {
                        offset: self.start_offset,
                        size,
                        need_a: true,
                        need_b: true,
                    },
                )
            }
        }
    }
}

/// Outcome of driving the cursor over the caches until a difference, the
/// end of the span, a missing range, or a failure.
pub open spec fn compare_spec(
    a: Seq<Option<HashedRange>>,
    b: Seq<Option<HashedRange>>,
    it: HashIter,
) -> CompareStep
    decreases a.len() + b.len() - 2 * it.index,
        when a.len() <= usize::MAX && b.len() <= usize::MAX
{
    match step_result(a, b, it) {
        NextStep::Done => CompareStep::Decided(Ordering::Equal),
        NextStep::Pair(ra, rb) => {
            if range_cmp(ra, rb) == Ordering::Equal {
                compare_spec(a, b, step_cursor(a, b, it))
            } else {
                CompareStep::Decided(range_cmp(ra, rb))
            }
        }
        NextStep::Need(req) => CompareStep::Need(req),
        NextStep::Fail(e) => CompareStep::Fail(e),
    }
}

/// Where the cursor stands after that drive.
pub open spec fn compare_cursor(
    a: Seq<Option<HashedRange>>,
    b: Seq<Option<HashedRange>>,
    it: HashIter,
) -> HashIter
    decreases a.len() + b.len() - 2 * it.index,
        when a.len() <= usize::MAX && b.len() <= usize::MAX
{
    match step_result(a, b, it) {
        NextStep::Pair(ra, rb) => {
            if range_cmp(ra, rb) == Ordering::Equal {
                compare_cursor(a, b, step_cursor(a, b, it))
            } else {
                step_cursor(a, b, it)
            }
        }
        _ => it,
    }
}

impl Hasher {
    /// Incremental comparison: walk the cached ranges from the cursor's
    /// position until the first difference decides the order, the end of
    /// the span confirms equality, a missing range must be hashed first, or
    /// a failure marker stops the comparison for good.
    pub fn compare(&self, other: &Hasher, it: &mut HashIter) -> (r: CompareStep)
        ensures
            r == compare_spec(self@, other@, *old(it)),
            *final(it) == compare_cursor(self@, other@, *old(it)),
    {
        // The cache lengths are real vector lengths, so they fit in usize;
        // the walk below is measured against that bound.
        let _n_self = self.len();
        let _n_other = other.len();
        let ghost it0 = *it;
        loop
            invariant
                it0 == *old(it),
                self@.len() <= usize::MAX,
                other@.len() <= usize::MAX,
                compare_spec(self@, other@, *it) == compare_spec(self@, other@, it0),
                compare_cursor(self@, other@, *it) == compare_cursor(self@, other@, it0),
            decreases self@.len() + other@.len() - 2 * it.index,
        {
            match it.next(self, other) {
                NextStep::Done => {
                    return CompareStep::Decided(Ordering::Equal);
                }
                NextStep::Pair(ra, rb) => {
                    let ord = ra.compare(&rb);
                    match ord {
                        Ordering::Equal => {}
                        Ordering::Less | Ordering::Greater => {
                            return CompareStep::Decided(ord);
                        }
                    }
                }
                NextStep::Need(req) => {
                    return CompareStep::Need(req);
                }
                NextStep::Fail(e) => {
                    return CompareStep::Fail(e);
                }
            }
        }
    }
}

impl CompareStep {
    /// The ordering layer's tie-break: a failed comparison orders as
    /// `Greater`, so one unreadable file sorts as different from everything
    /// instead of aborting the scan; callers consult diagnostics separately.
    /// A comparison that still needs bytes has no order yet.
    pub fn resolve(self) -> (r: Option<Ordering>)
        ensures
            r == match self {
                CompareStep::Decided(o) => Some(o),
                CompareStep::Need(_) => None::<Ordering>,
                CompareStep::Fail(_) => Some(Ordering::Greater),
            },
    {
        match self {
            CompareStep::Decided(o) => Some(o),
            CompareStep::Need(_) => None,
            CompareStep::Fail(_) => Some(Ordering::Greater),
        }
    }
}

} // verus!
