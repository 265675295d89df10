//! The ordering contract of the comparison, proved once and for all: the
//! laws that let callers place file identities into a sorted structure.

use vstd::prelude::*;
use crate::cursor::CmpError;
use crate::cursor::CompareStep;
use crate::cursor::HashIter;
use crate::cursor::MAX_CHUNK_SIZE;
use crate::cursor::NextStep;
use crate::cursor::ReadRequest;
use crate::cursor::advance;
use crate::cursor::compare_cursor;
use crate::cursor::compare_spec;
use crate::cursor::failed_at;
use crate::cursor::initial_cursor;
use crate::cursor::spec_min64;
use crate::cursor::step_cursor;
use crate::cursor::step_result;
use crate::identity::Metadata;
use crate::identity::metadata_cmp;
use crate::range::HashedRange;
use crate::range::lemma_lex_cmp_self;
use crate::range::lemma_range_cmp_antisym;
use crate::range::lemma_range_cmp_equal;
use crate::range::lemma_range_cmp_self;
use crate::range::opposite;
use crate::range::range_cmp;

verus! {

use core::cmp::Ordering;

/// Reflexivity: driving a comparison over two equal caches can confirm
/// equality, ask for bytes, or fail, but it can never order the content
/// before or after itself.
pub proof fn lemma_compare_reflexive(a: Seq<Option<HashedRange>>, it: HashIter)
    requires
        a.len() <= usize::MAX,
    ensures
        compare_spec(a, a, it) matches CompareStep::Decided(o) ==> o == Ordering::Equal,
    decreases 2 * a.len() - 2 * it.index,
{
    match step_result(a, a, it) {
        NextStep::Pair(ra, rb) => {
            lemma_range_cmp_self(ra);
            lemma_compare_reflexive(a, step_cursor(a, a, it));
        }
        _ => {}
    }
}

/// Total bytes covered by the first `n` cached ranges; failure markers
/// cover nothing.
pub open spec fn sum_sizes(a: Seq<Option<HashedRange>>, n: int) -> int
    decreases n,
{
    if n <= 0 {
        0
    } else {
        sum_sizes(a, n - 1) + if a[n - 1] is Some {
            a[n - 1]->Some_0.size as int
        } else {
            0
        }
    }
}

/// Covering more ranges never covers fewer bytes.
proof fn lemma_sum_sizes_monotone(a: Seq<Option<HashedRange>>, n: int, m: int)
    requires
        n <= m,
    ensures
        sum_sizes(a, n) <= sum_sizes(a, m),
    decreases m - n,
{
    if n < m {
        lemma_sum_sizes_monotone(a, n, m - 1);
    }
}

/// Reflexivity, completed: when every range of a cache was hashed
/// successfully and the cache covers the compared span exactly, the walk of
/// the cache against itself confirms equality — the positive half of
/// `compare(A, A) == Equal`, given that every read succeeded.
pub proof fn lemma_compare_self_complete(a: Seq<Option<HashedRange>>, it: HashIter)
    requires
        a.len() <= usize::MAX,
        forall|i: int| 0 <= i < a.len() ==> a[i] is Some,
        it.index <= a.len(),
        it.start_offset == sum_sizes(a, it.index as int),
        it.end_offset == sum_sizes(a, a.len() as int),
    ensures
        compare_spec(a, a, it) == CompareStep::Decided(Ordering::Equal),
    decreases a.len() - it.index,
{
    let i = it.index as int;
    lemma_sum_sizes_monotone(a, i, a.len() as int);
    if it.start_offset >= it.end_offset {
    } else {
        assert(i < a.len()) by {
            if i == a.len() {
                assert(it.start_offset == it.end_offset);
            }
        }
        let ra = a[i]->Some_0;
        lemma_sum_sizes_monotone(a, i + 1, a.len() as int);
        assert(sum_sizes(a, i + 1) == it.start_offset + ra.size);
        assert(step_result(a, a, it) == NextStep::Pair(ra, ra));
        lemma_range_cmp_self(ra);
        lemma_compare_self_complete(a, step_cursor(a, a, it));
    }
}

/// A fresh self comparison of a fully and successfully hashed cache over
/// its own total size is confirmed equal.
pub proof fn lemma_compare_self_complete_initial(a: Seq<Option<HashedRange>>, size: u64)
    requires
        a.len() <= usize::MAX,
        forall|i: int| 0 <= i < a.len() ==> a[i] is Some,
        sum_sizes(a, a.len() as int) == size,
    ensures
        compare_spec(a, a, initial_cursor(size)) == CompareStep::Decided(
            Ordering::Equal,
        ),
{
    lemma_compare_self_complete(a, initial_cursor(size));
}

/// A request with the sides swapped.
pub open spec fn mirrored_request(req: ReadRequest) -> ReadRequest {
    ReadRequest { offset: req.offset, size: req.size, need_a: req.need_b, need_b: req.need_a }
}

/// The outcome a comparison driven with swapped operands reports: orders
/// are mirrored, requests swap their sides, failures stay failures.
pub open spec fn mirrored_step(r: CompareStep) -> CompareStep {
    match r {
        CompareStep::Decided(o) => CompareStep::Decided(opposite(o)),
        CompareStep::Need(req) => CompareStep::Need(mirrored_request(req)),
        CompareStep::Fail(e) => CompareStep::Fail(e),
    }
}

/// Antisymmetry: swapping the two caches mirrors the outcome — a decided
/// order flips its sign — and leaves the cursor's walk unchanged.
pub proof fn lemma_compare_antisym(
    a: Seq<Option<HashedRange>>,
    b: Seq<Option<HashedRange>>,
    it: HashIter,
)
    requires
        a.len() <= usize::MAX,
        b.len() <= usize::MAX,
    ensures
        compare_spec(b, a, it) == mirrored_step(compare_spec(a, b, it)),
        compare_cursor(b, a, it) == compare_cursor(a, b, it),
    decreases a.len() + b.len() - 2 * it.index,
{
    match step_result(a, b, it) {
        NextStep::Pair(ra, rb) => {
            lemma_range_cmp_antisym(ra, rb);
            assert(step_result(b, a, it) == NextStep::Pair(rb, ra));
            if range_cmp(ra, rb) == Ordering::Equal {
                lemma_compare_antisym(a, b, step_cursor(a, b, it));
                assert(step_cursor(b, a, it) == step_cursor(a, b, it));
            }
        }
        _ => {}
    }
}

/// Transitivity of equality: when one walk confirms `a` equal to `b` and
/// another, from the same cursor, confirms `b` equal to `c`, then `a` and
/// `c` compare equal as well.
pub proof fn lemma_compare_trans_equal(
    a: Seq<Option<HashedRange>>,
    b: Seq<Option<HashedRange>>,
    c: Seq<Option<HashedRange>>,
    it: HashIter,
)
    requires
        a.len() <= usize::MAX,
        b.len() <= usize::MAX,
        c.len() <= usize::MAX,
        compare_spec(a, b, it) == CompareStep::Decided(Ordering::Equal),
        compare_spec(b, c, it) == CompareStep::Decided(Ordering::Equal),
    ensures
        compare_spec(a, c, it) == CompareStep::Decided(Ordering::Equal),
    decreases a.len() + c.len() - 2 * it.index,
{
    match step_result(a, b, it) {
        NextStep::Done => {}
        NextStep::Pair(ra, rb) => {
            let i = it.index as int;
            let rc = c[i]->Some_0;
            assert(step_result(b, c, it) == NextStep::Pair(rb, rc));
            lemma_range_cmp_equal(ra, rb);
            lemma_range_cmp_equal(rb, rc);
            assert(step_result(a, c, it) == NextStep::Pair(ra, rc));
            lemma_lex_cmp_self(ra.digest@);
            assert(range_cmp(ra, rc) == Ordering::Equal);
            assert(step_cursor(b, c, it) == step_cursor(a, b, it));
            assert(step_cursor(a, c, it) == step_cursor(a, b, it));
            lemma_compare_trans_equal(a, b, c, step_cursor(a, b, it));
        }
        NextStep::Need(_) => {}
        NextStep::Fail(_) => {}
    }
}

/// Cache reuse: a side that already holds the range at the cursor's index
/// is never asked to hash it again — a request only ever names sides whose
/// cache ends before the index.
pub proof fn lemma_no_rehash(
    a: Seq<Option<HashedRange>>,
    b: Seq<Option<HashedRange>>,
    it: HashIter,
)
    ensures
        step_result(a, b, it) matches NextStep::Need(req) ==> {
            &&& req.need_a ==> it.index >= a.len()
            &&& req.need_b ==> it.index >= b.len()
            &&& req.need_a || req.need_b
        },
{
}

/// Requested spans stay inside the compared range: a request names the
/// cursor's current offset and never more bytes than remain before
/// `end_offset`; when neither side has the range, its size comes from the
/// growth schedule, capped by the remaining bytes.
pub proof fn lemma_request_bounds(
    a: Seq<Option<HashedRange>>,
    b: Seq<Option<HashedRange>>,
    it: HashIter,
)
    ensures
        step_result(a, b, it) matches NextStep::Need(req) ==> {
            &&& req.offset == it.start_offset
            &&& req.size <= it.end_offset - it.start_offset
            &&& it.index >= a.len() && it.index >= b.len() ==> req.size == spec_min64(
                (it.end_offset - it.start_offset) as u64,
                it.next_buffer_size,
            )
        },
{
}

/// The growth schedule: a fresh cursor proposes 2048-byte chunks, and each
/// compared pair multiplies the proposal by 16, up to the 128 MiB ceiling.
pub proof fn lemma_growth_schedule(
    a: Seq<Option<HashedRange>>,
    b: Seq<Option<HashedRange>>,
    it: HashIter,
)
    ensures
        step_result(a, b, it) matches NextStep::Pair(ra, rb) ==> step_cursor(a, b, it)
            == advance(it, ra.size),
        forall|size: u64|
            (#[trigger] advance(it, size)).next_buffer_size == if 16 * size >= MAX_CHUNK_SIZE {
                MAX_CHUNK_SIZE as int
            } else {
                16 * size
            },
{
}

/// A permanently failed range stops every comparison that reaches its
/// index, at once and without requesting any new read.
pub proof fn lemma_failed_range_is_permanent(
    a: Seq<Option<HashedRange>>,
    b: Seq<Option<HashedRange>>,
    it: HashIter,
)
    ensures
        it.start_offset < it.end_offset && (failed_at(a, it.index as int) || failed_at(
            b,
            it.index as int,
        )) ==> step_result(a, b, it) == NextStep::Fail(CmpError::ReadError),
{
}

/// A whole identity comparison, as a driver runs it from scratch: metadata
/// decides alone when it differs, and equal metadata hands the verdict to
/// the content walk over a fresh cursor spanning the common size.
pub open spec fn identity_compare_spec(
    ma: Metadata,
    a: Seq<Option<HashedRange>>,
    mb: Metadata,
    b: Seq<Option<HashedRange>>,
) -> CompareStep {
    if metadata_cmp(ma, mb) == Ordering::Equal {
        compare_spec(a, b, initial_cursor(ma.size))
    } else {
        CompareStep::Decided(metadata_cmp(ma, mb))
    }
}

/// Reflexivity of the identity order: an identity compared against an
/// equal snapshot with an equal cache is never ordered before or after it.
pub proof fn lemma_identity_compare_reflexive(m: Metadata, a: Seq<Option<HashedRange>>)
    requires
        a.len() <= usize::MAX,
    ensures
        identity_compare_spec(m, a, m, a) matches CompareStep::Decided(o) ==> o
            == Ordering::Equal,
{
    lemma_compare_reflexive(a, initial_cursor(m.size));
}

/// Antisymmetry of the identity order: swapping the two identities mirrors
/// the outcome, so a decided order flips its sign.
pub proof fn lemma_identity_compare_antisym(
    ma: Metadata,
    a: Seq<Option<HashedRange>>,
    mb: Metadata,
    b: Seq<Option<HashedRange>>,
)
    requires
        a.len() <= usize::MAX,
        b.len() <= usize::MAX,
    ensures
        identity_compare_spec(mb, b, ma, a) == mirrored_step(identity_compare_spec(ma, a, mb, b)),
{
    lemma_metadata_cmp_laws(ma, mb, mb);
    if metadata_cmp(ma, mb) == Ordering::Equal {
        lemma_compare_antisym(a, b, initial_cursor(ma.size));
    }
}

/// Transitivity of equality of the identity order: two comparisons that
/// confirmed `a` equal to `b` and `b` equal to `c` leave `a` and `c` equal.
pub proof fn lemma_identity_compare_trans_equal(
    ma: Metadata,
    a: Seq<Option<HashedRange>>,
    mb: Metadata,
    b: Seq<Option<HashedRange>>,
    mc: Metadata,
    c: Seq<Option<HashedRange>>,
)
    requires
        a.len() <= usize::MAX,
        b.len() <= usize::MAX,
        c.len() <= usize::MAX,
        identity_compare_spec(ma, a, mb, b) == CompareStep::Decided(Ordering::Equal),
        identity_compare_spec(mb, b, mc, c) == CompareStep::Decided(Ordering::Equal),
    ensures
        identity_compare_spec(ma, a, mc, c) == CompareStep::Decided(Ordering::Equal),
{
    lemma_metadata_cmp_laws(ma, mb, mc);
    lemma_compare_trans_equal(a, b, c, initial_cursor(ma.size));
}

/// The metadata order is itself a total order: equal on a snapshot and
/// itself, mirrored under swapping, equal only for equal snapshots, and
/// transitive through equality.
pub proof fn lemma_metadata_cmp_laws(a: Metadata, b: Metadata, c: Metadata)
    ensures
        metadata_cmp(a, a) == Ordering::Equal,
        metadata_cmp(b, a) == opposite(metadata_cmp(a, b)),
        metadata_cmp(a, b) == Ordering::Equal ==> a == b,
        metadata_cmp(a, b) == Ordering::Equal && metadata_cmp(b, c) == Ordering::Equal
            ==> metadata_cmp(a, c) == Ordering::Equal,
{
}

} // verus!
