//! Comparable file identities: a path, a metadata snapshot taken once at
//! construction, and the file's own range cache.

use vstd::prelude::*;
use crate::cursor::CompareStep;
use crate::cursor::HashIter;
use crate::cursor::compare_cursor;
use crate::cursor::compare_spec;
use crate::cursor::initial_cursor;
use crate::hasher::Hasher;
use crate::range::HashedRange;

verus! {

use core::cmp::Ordering;

/// Snapshot of the metadata that decides comparability without any I/O:
/// files of different sizes cannot be identical, and files on different
/// devices cannot be hardlinked, so either difference settles a comparison
/// before a single byte is read.
#[derive(Clone, Copy, PartialEq, Eq, Debug)]
pub struct Metadata {
    /// Byte length of the file, the upper bound for hashing.
    pub size: u64,
    /// Identifier of the device the file lives on.
    pub dev: u64,
}

/// Order over metadata snapshots: size first, then device.
pub open spec fn metadata_cmp(a: Metadata, b: Metadata) -> Ordering {
    if a.size < b.size {
        Ordering::Less
    } else if a.size > b.size {
        Ordering::Greater
    } else if a.dev < b.dev {
        Ordering::Less
    } else if a.dev > b.dev {
        Ordering::Greater
    } else {
        Ordering::Equal
    }
}

impl Metadata {
    /// Size first, then device.
    pub fn compare(&self, other: &Metadata) -> (r: Ordering)
        ensures
            r == metadata_cmp(*self, *other),
    {
        if self.size < other.size {
            Ordering::Less
        } else if self.size > other.size {
            Ordering::Greater
        } else if self.dev < other.dev {
            Ordering::Less
        } else if self.dev > other.dev {
            Ordering::Greater
        } else {
            Ordering::Equal
        }
    }
}

/// How a comparison of two identities opens.
pub enum StartStep {
    /// Metadata differed: the order is settled with zero bytes read.
    Decided(Ordering),
    /// Metadata agreed: the contents must be compared, starting from this
    /// fresh cursor over the common file size.
    Content(HashIter),
}

/// A file's comparable identity. The metadata snapshot is fixed for the
/// identity's lifetime; later filesystem changes are not observed and can
/// only surface as non-fatal comparison errors. The range cache is owned
/// exclusively and grows as comparisons against other identities hash new
/// spans, so a later comparison reuses every range an earlier one computed.
pub struct FileContent {
    path: String,
    metadata: Metadata,
    hashes: Hasher,
}

impl FileContent {
    /// The path this identity was built from.
    pub closed spec fn spec_path(&self) -> Seq<char> {
        self.path@
    }

    /// The metadata snapshot taken at construction.
    pub closed spec fn spec_metadata(&self) -> Metadata {
        self.metadata
    }

    /// The cached ranges, oldest first.
    pub closed spec fn spec_hashes(&self) -> Seq<Option<HashedRange>> {
        self.hashes@
    }

    /// A fresh identity: the snapshot is kept as given and nothing is
    /// hashed yet.
    pub fn new(path: String, metadata: Metadata) -> (r: FileContent)
        ensures
            r.spec_path() == path@,
            r.spec_metadata() == metadata,
            r.spec_hashes() == Seq::<Option<HashedRange>>::empty(),
    {
        FileContent { path, metadata, hashes: Hasher::new() }
    }

    /// The path, for the driver that performs the reads.
    pub fn path(&self) -> (r: &String)
        ensures
            r@ == self.spec_path(),
    {
        &self.path
    }

    /// The metadata snapshot.
    pub fn metadata(&self) -> (r: Metadata)
        ensures
            r == self.spec_metadata(),
    {
        self.metadata
    }

    /// Open a comparison: unequal metadata decides immediately, without any
    /// I/O; equal metadata hands back the cursor the content comparison
    /// must be driven with.
    pub fn compare_begin(&self, other: &FileContent) -> (r: StartStep)
        ensures
            r == if metadata_cmp(self.spec_metadata(), other.spec_metadata()) == Ordering::Equal {
                StartStep::Content(initial_cursor(self.spec_metadata().size))
            } else {
                StartStep::Decided(metadata_cmp(self.spec_metadata(), other.spec_metadata()))
            },
    {
        let ord = self.metadata.compare(&other.metadata);
        match ord {
            Ordering::Equal => StartStep::Content(HashIter::new(self.metadata.size)),
            Ordering::Less | Ordering::Greater => StartStep::Decided(ord),
        }
    }

    /// Advance a content comparison as far as the two caches allow; see
    /// `Hasher::compare`.
    pub fn compare_step(&self, other: &FileContent, it: &mut HashIter) -> (r: CompareStep)
        ensures
            r == compare_spec(self.spec_hashes(), other.spec_hashes(), *old(it)),
            *final(it) == compare_cursor(self.spec_hashes(), other.spec_hashes(), *old(it)),
    {
        self.hashes.compare(&other.hashes, it)
    }

    /// Record the outcome of hashing the span the cursor asked for on this
    /// side: a range, or `None` as the permanent failure marker. The path
    /// and the metadata snapshot never change.
    pub fn record(&mut self, outcome: Option<HashedRange>)
        ensures
            final(self).spec_hashes() == old(self).spec_hashes().push(outcome),
            final(self).spec_path() == old(self).spec_path(),
            final(self).spec_metadata() == old(self).spec_metadata(),
    {
        self.hashes.push(outcome)
    }
}

} // verus!
