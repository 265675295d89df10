//! Content-comparison core for a file-deduplication engine.
//!
//! Files that are candidates for merging are placed into a total order that
//! agrees with byte-by-byte comparison of their contents while reading as
//! little as possible: metadata differences decide without any I/O, and equal
//! metadata triggers an incremental comparison of hashed byte ranges that are
//! cached per file and grown lazily on demand.
//!
//! The crate itself performs no I/O. A driver owns the files: it asks the
//! comparison cursor what span of bytes is needed next, reads those bytes,
//! and hands them back to be hashed and cached.

pub mod cursor;
pub mod group;
pub mod hasher;
pub mod identity;
pub mod laws;
pub mod range;
