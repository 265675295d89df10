//! Hashed byte ranges: the unit in which file contents are compared.

use vstd::prelude::*;

verus! {

use core::cmp::Ordering;

/// A hashed chunk of data of arbitrary size. Files are compared range by
/// range: two files agree on a range when both its length and its digest
/// agree.
#[derive(Clone, Copy, PartialEq, Eq, Debug)]
pub struct HashedRange {
    /// Length in bytes of the span this range stands for.
    pub size: u64,
    /// Digest of the bytes obtained for the span, truncated to 20 bytes,
    /// which is plenty for equality testing at this population scale.
    pub digest: [u8; 20],
}

/// The mirror image of an ordering, as swapping the operands produces it.
pub open spec fn opposite(o: Ordering) -> Ordering {
    match o {
        Ordering::Less => Ordering::Greater,
        Ordering::Equal => Ordering::Equal,
        Ordering::Greater => Ordering::Less,
    }
}

/// Lexicographic order over byte sequences: the first differing byte decides;
/// a proper prefix sorts before the longer sequence.
pub open spec fn lex_cmp(a: Seq<u8>, b: Seq<u8>) -> Ordering
    decreases a.len(),
{
    if a.len() == 0 && b.len() == 0 {
        Ordering::Equal
    } else if a.len() == 0 {
        Ordering::Less
    } else if b.len() == 0 {
        Ordering::Greater
    } else if a[0] < b[0] {
        Ordering::Less
    } else if a[0] > b[0] {
        Ordering::Greater
    } else {
        lex_cmp(a.skip(1), b.skip(1))
    }
}

/// Order over hashed ranges: size first, then the digest lexicographically.
pub open spec fn range_cmp(a: HashedRange, b: HashedRange) -> Ordering {
    if a.size < b.size {
        Ordering::Less
    } else if a.size > b.size {
        Ordering::Greater
    } else {
        lex_cmp(a.digest@, b.digest@)
    }
}

/// Comparing a sequence with itself yields `Equal`.
pub proof fn lemma_lex_cmp_self(a: Seq<u8>)
    ensures
        lex_cmp(a, a) == Ordering::Equal,
    decreases a.len(),
{
    if a.len() != 0 {
        lemma_lex_cmp_self(a.skip(1));
    }
}

/// Swapping the operands of the lexicographic order mirrors the result.
pub proof fn lemma_lex_cmp_antisym(a: Seq<u8>, b: Seq<u8>)
    ensures
        lex_cmp(b, a) == opposite(lex_cmp(a, b)),
    decreases a.len(),
{
    if a.len() != 0 && b.len() != 0 && a[0] == b[0] {
        lemma_lex_cmp_antisym(a.skip(1), b.skip(1));
    }
}

/// Only equal sequences compare as `Equal`.
pub proof fn lemma_lex_cmp_equal(a: Seq<u8>, b: Seq<u8>)
    requires
        lex_cmp(a, b) == Ordering::Equal,
    ensures
        a == b,
    decreases a.len(),
{
    if a.len() == 0 && b.len() == 0 {
        assert(a =~= b);
    } else {
        lemma_lex_cmp_equal(a.skip(1), b.skip(1));
        assert forall|j: int| 0 <= j < a.len() implies a[j] == b[j] by {
            if j >= 1 {
                assert(a.skip(1)[j - 1] == b.skip(1)[j - 1]);
            }
        }
        assert(a =~= b);
    }
}

/// A range compares as `Equal` with itself.
pub proof fn lemma_range_cmp_self(a: HashedRange)
    ensures
        range_cmp(a, a) == Ordering::Equal,
{
    lemma_lex_cmp_self(a.digest@);
}

/// Swapping the operands of the range order mirrors the result.
pub proof fn lemma_range_cmp_antisym(a: HashedRange, b: HashedRange)
    ensures
        range_cmp(b, a) == opposite(range_cmp(a, b)),
{
    lemma_lex_cmp_antisym(a.digest@, b.digest@);
}

/// Ranges that compare as `Equal` agree on size and digest.
pub proof fn lemma_range_cmp_equal(a: HashedRange, b: HashedRange)
    requires
        range_cmp(a, b) == Ordering::Equal,
    ensures
        a.size == b.size,
        a.digest@ == b.digest@,
{
    lemma_lex_cmp_equal(a.digest@, b.digest@);
}

/// Digest of a byte sequence, as the blake3 hash computes it, truncated to
/// its first 20 bytes. The exact value is pinned only by the hash itself;
/// equal inputs give equal digests.
pub uninterp spec fn content_digest(data: Seq<u8>) -> Seq<u8>;

/// Relies on `blake3::hash`: the digest is a function of the input bytes
/// alone, the same in every process and on every machine; `as_bytes` exposes
/// its 32 bytes, of which the first 20 are kept.
#[verifier::external_body]
fn hash_chunk(data: &[u8]) -> (r: [u8; 20])
    ensures
        r@ == content_digest(data@),
{
    let digest = blake3::hash(data);
    let mut out = [0u8; 20];
    out.copy_from_slice(&digest.as_bytes()[0..20]);
    out
}

impl HashedRange {
    /// Hash the bytes obtained for a span of `size` bytes. When a file was
    /// truncated under the comparison, `data` may be shorter than `size`:
    /// the range still records the requested span length, and the digest
    /// covers the bytes actually obtained, so a shrunk file compares as
    /// different from an intact copy of its former self.
    pub fn from_bytes(size: u64, data: &[u8]) -> (r: HashedRange)
        ensures
            r.size == size,
            r.digest@ == content_digest(data@),
    {
        HashedRange { size, digest: hash_chunk(data) }
    }

    /// Size first, then the digest byte by byte.
    pub fn compare(&self, other: &HashedRange) -> (r: Ordering)
        ensures
            r == range_cmp(*self, *other),
    {
        if self.size < other.size {
            return Ordering::Less;
        }
        if self.size > other.size {
            return Ordering::Greater;
        }
        let mut i: usize = 0;
        while i < 20
            invariant
                0 <= i <= 20,
                self.size == other.size,
                forall|j: int| 0 <= j < i ==> self.digest@[j] == other.digest@[j],
            decreases 20 - i,
        {
            if self.digest[i] < other.digest[i] {
                proof {
                    lemma_lex_cmp_first_diff(self.digest@, other.digest@, i as int);
                }
                return Ordering::Less;
            }
            if self.digest[i] > other.digest[i] {
                proof {
                    lemma_lex_cmp_first_diff(self.digest@, other.digest@, i as int);
                }
                return Ordering::Greater;
            }
            i = i + 1;
        }
        proof {
            assert(self.digest@ =~= other.digest@);
            lemma_lex_cmp_self(self.digest@);
        }
        Ordering::Equal
    }
}

/// When two sequences of one length agree before position `i` and differ
/// there, the byte at `i` decides the lexicographic order.
proof fn lemma_lex_cmp_first_diff(a: Seq<u8>, b: Seq<u8>, i: int)
    requires
        a.len() == b.len(),
        0 <= i < a.len(),
        forall|j: int| 0 <= j < i ==> a[j] == b[j],
        a[i] != b[i],
    ensures
        lex_cmp(a, b) == if a[i] < b[i] {
            Ordering::Less
        } else {
            Ordering::Greater
        },
    decreases i,
{
    if i > 0 {
        lemma_lex_cmp_first_diff(a.skip(1), b.skip(1), i - 1);
    }
}

} // verus!
