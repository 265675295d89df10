//! Groups of paths confirmed to hold identical content, with hardlink
//! accounting.

use vstd::prelude::*;
use smallvec::SmallVec;

verus! {

/// Holds the `smallvec` vector that backs a path group. As with the range
/// cache, the vector's array type parameter is bounded by a trait of that
/// crate which the verifier cannot be told about, so the field stays opaque
/// behind the trusted accessors below.
#[verifier::external_body]
pub struct PathList {
    inner: SmallVec<[String; 1]>,
}

/// The paths a group vector holds, in insertion order.
pub uninterp spec fn paths_of(v: PathList) -> Seq<Seq<char>>;

/// Relies on `SmallVec::new`: it constructs an empty vector.
#[verifier::external_body]
fn paths_new() -> (r: PathList)
    ensures
        paths_of(r) == Seq::<Seq<char>>::empty(),
{
    PathList { inner: SmallVec::new() }
}

/// Relies on `SmallVec::push`: it appends one element at the end and keeps
/// the others in place.
#[verifier::external_body]
fn paths_push(v: &mut PathList, x: String)
    ensures
        paths_of(*final(v)) == paths_of(*old(v)).push(x@),
{
    v.inner.push(x)
}

/// Relies on `SmallVec::len`: it returns the number of elements held.
#[verifier::external_body]
fn paths_len(v: &PathList) -> (n: usize)
    ensures
        n == paths_of(*v).len(),
{
    v.inner.len()
}

/// Relies on `SmallVec`'s deref to a slice of its elements in order, on
/// slice indexing, and on `String::clone`.
#[verifier::external_body]
fn paths_get(v: &PathList, i: usize) -> (r: String)
    requires
        i < paths_of(*v).len(),
    ensures
        r@ == paths_of(*v)[i as int],
{
    v.inner[i].clone()
}

/// Paths confirmed identical in content, append-only, plus the hardlink
/// count observed via stat, which also counts links that exist outside the
/// scanned directories.
pub struct FileSet {
    /// Largest number of hardlinks to this content seen by stat.
    pub max_hardlinks: u64,
    /// The grouped paths, reached through the accessors below.
    pub paths: PathList,
}

impl FileSet {
    /// The grouped paths, in the order they were added.
    pub closed spec fn spec_paths(&self) -> Seq<Seq<char>> {
        paths_of(self.paths)
    }

    /// A group holding its first confirmed path.
    pub fn new(path: String, max_hardlinks: u64) -> (r: FileSet)
        ensures
            r.max_hardlinks == max_hardlinks,
            r.spec_paths() =~= seq![path@],
    {
        let mut paths = paths_new();
        paths_push(&mut paths, path);
        FileSet { max_hardlinks, paths }
    }

    /// Append a path confirmed to hold this content; nothing is reordered.
    pub fn push(&mut self, path: String)
        ensures
            final(self).spec_paths() == old(self).spec_paths().push(path@),
            final(self).max_hardlinks == old(self).max_hardlinks,
    {
        paths_push(&mut self.paths, path)
    }

    /// How many grouped paths there are.
    pub fn path_count(&self) -> (n: usize)
        ensures
            n == self.spec_paths().len(),
    {
        paths_len(&self.paths)
    }

    /// The path at `i`, in insertion order.
    pub fn path_at(&self, i: usize) -> (r: String)
        requires
            i < self.spec_paths().len(),
        ensures
            r@ == self.spec_paths()[i as int],
    {
        paths_get(&self.paths, i)
    }

    /// Number of known hardlinks to this content: the paths grouped here,
    /// or the fan-out stat reported, whichever is larger, so a downstream
    /// hardlinking decision does not under-count existing links.
    pub fn links(&self) -> (r: u64)
        ensures
            r == if self.max_hardlinks >= self.spec_paths().len() {
                self.max_hardlinks
            } else {
                self.spec_paths().len() as u64
            },
    {
        let n = paths_len(&self.paths) as u64;
        if self.max_hardlinks >= n {
            self.max_hardlinks
        } else {
            n
        }
    }
}

} // verus!
