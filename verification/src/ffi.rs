//! The records that the RGW storage abstraction layer's C API exchanges,
//! held as plain values.
//!
//! A C string is held as `Option<Vec<u8>>`: `None` for a null pointer, else
//! the bytes before its terminating nul. A C array is held as
//! `Option<Vec<T>>` beside the count that the C record carries with it.

use vstd::prelude::*;

verus! {

/// Conditionals for PUT operations.
#[derive(Debug)]
pub struct RGWPutConditionals {
    /// Only write if the ETag matches this value.
    pub if_match: Option<Vec<u8>>,
    /// Only write if the ETag does not match this value.
    pub if_none_match: Option<Vec<u8>>,
}

/// Conditionals for GET operations.
#[derive(Debug)]
pub struct RGWGetConditionals {
    /// Only return if the ETag matches.
    pub if_match: Option<Vec<u8>>,
    /// Only return if the ETag does not match.
    pub if_none_match: Option<Vec<u8>>,
    /// Only return if modified since this time (Unix epoch seconds).
    pub if_modified_since: i64,
    /// Only return if not modified since this time (Unix epoch seconds).
    pub if_unmodified_since: i64,
}

/// Object metadata returned by RGW.
#[derive(Debug)]
pub struct RGWObjectMeta {
    /// Object size in bytes.
    pub size: u64,
    /// Modification time, seconds since the Unix epoch.
    pub mtime_sec: i64,
    /// Modification time, nanoseconds.
    pub mtime_nsec: i64,
    /// The ETag, if RGW returned one.
    pub etag: Option<Vec<u8>>,
}

/// A single entry of a list result.
#[derive(Debug)]
pub struct RGWObjectEntry {
    /// Object key.
    pub key: Option<Vec<u8>>,
    /// Object ETag.
    pub etag: Option<Vec<u8>>,
    /// Object size in bytes.
    pub size: u64,
    /// Modification time, seconds since the Unix epoch.
    pub mtime_sec: i64,
    /// Modification time, nanoseconds.
    pub mtime_nsec: i32,
}

/// The result of a list operation.
#[derive(Debug)]
pub struct RGWListResult {
    /// The object entries.
    pub entries: Option<Vec<RGWObjectEntry>>,
    /// Number of objects in `entries`.
    pub num_objects: u32,
    /// Common prefixes, for hierarchical listing.
    pub common_prefixes: Option<Vec<Option<Vec<u8>>>>,
    /// Number of common prefixes.
    pub num_common_prefixes: u32,
    /// Marker for the next page of results.
    pub next_marker: Option<Vec<u8>>,
    /// Non-zero if more results are available.
    pub is_truncated: i32,
}

impl RGWListResult {
    /// The arrays hold as many elements as their counts say.
    pub open spec fn well_formed(&self) -> bool {
        &&& (self.entries matches Some(v) ==> v.len() == self.num_objects)
        &&& (self.common_prefixes matches Some(v) ==> v.len() == self.num_common_prefixes)
    }
}

/// A byte range for a multi-range GET (both ends inclusive).
#[derive(Clone, Copy, Debug, PartialEq, Eq, Structural)]
pub struct RGWRange {
    /// Start byte offset (inclusive).
    pub start: u64,
    /// End byte offset (inclusive).
    pub end: u64,
}

/// The result of a single range read.
#[derive(Debug)]
pub struct RGWRangeResult {
    /// The data read.
    pub data: Option<Vec<u8>>,
    /// Length of the data.
    pub len: u64,
}

} // verus!
