//! Per-file cache of hashed byte ranges, grown lazily on demand.

use vstd::prelude::*;
use crate::range::HashedRange;
use smallvec::SmallVec;

verus! {

/// Holds the `smallvec` vector that backs a range cache. The vector's
/// array type parameter is bounded by a trait of that crate, which the
/// verifier cannot be told about, so the whole field stays opaque and is
/// reached only through the trusted accessors below.
#[verifier::external_body]
pub struct RangeList {
    inner: SmallVec<[Option<HashedRange>; 1]>,
}

/// The elements a range cache vector holds, oldest first. `None` marks an
/// index whose hashing permanently failed.
pub uninterp spec fn ranges_of(v: RangeList) -> Seq<Option<HashedRange>>;

/// Relies on `SmallVec::new`: it constructs an empty vector.
#[verifier::external_body]
fn ranges_new() -> (r: RangeList)
    ensures
        ranges_of(r) == Seq::<Option<HashedRange>>::empty(),
{
    RangeList { inner: SmallVec::new() }
}

/// Relies on `SmallVec::push`: it appends one element at the end and keeps
/// the others in place.
#[verifier::external_body]
fn ranges_push(v: &mut RangeList, x: Option<HashedRange>)
    ensures
        ranges_of(*final(v)) == ranges_of(*old(v)).push(x),
{
    v.inner.push(x)
}

/// Relies on `SmallVec::len`: it returns the number of elements held.
#[verifier::external_body]
fn ranges_len(v: &RangeList) -> (n: usize)
    ensures
        n == ranges_of(*v).len(),
{
    v.inner.len()
}

/// Relies on `SmallVec`'s deref to a slice of its elements in order, and on
/// slice indexing.
#[verifier::external_body]
fn ranges_get(v: &RangeList, i: usize) -> (r: Option<HashedRange>)
    requires
        i < ranges_of(*v).len(),
    ensures
        r == ranges_of(*v)[i as int],
{
    v.inner[i]
}

/// Per-file cache of hashed ranges. The entry at index `i` stands for the
/// span of bytes that starts at the sum of the sizes of the entries before
/// it; `None` records that hashing that span failed once and is never
/// retried.
pub struct Hasher {
    ranges: RangeList,
}

impl View for Hasher {
    type V = Seq<Option<HashedRange>>;

    closed spec fn view(&self) -> Seq<Option<HashedRange>> {
        ranges_of(self.ranges)
    }
}

impl Hasher {
    /// An empty cache: nothing has been hashed yet.
    pub fn new() -> (r: Hasher)
        ensures
            r@ == Seq::<Option<HashedRange>>::empty(),
    {
        Hasher { ranges: ranges_new() }
    }

    /// Record the outcome of hashing the next span: a range on success,
    /// `None` as the permanent failure marker. Entries are append-only.
    pub fn push(&mut self, outcome: Option<HashedRange>)
        ensures
            final(self)@ == old(self)@.push(outcome),
    {
        ranges_push(&mut self.ranges, outcome)
    }

    /// How many spans have an entry, counting failed ones.
    pub fn len(&self) -> (n: usize)
        ensures
            n == self@.len(),
    {
        ranges_len(&self.ranges)
    }

    /// The entry at `i`, or `None` past the end of the cache.
    pub fn entry(&self, i: usize) -> (r: Option<Option<HashedRange>>)
        ensures
            r == if i < self@.len() {
                Some(self@[i as int])
            } else {
                None::<Option<HashedRange>>
            },
            self@.len() <= usize::MAX,
    {
        if i < self.len() {
            Some(ranges_get(&self.ranges, i))
        } else {
            None
        }
    }
}

} // verus!
