//! Metadata of a stored object, as the store reports it.

use vstd::prelude::*;

use crate::text::opt_text;
use crate::time::Timestamp;

verus! {

/// The metadata of an object.
#[derive(Debug, Clone)]
pub struct ObjectMeta {
    /// The object's path.
    pub location: String,
    /// When the object was last modified.
    pub last_modified: Timestamp,
    /// Size in bytes.
    pub size: u64,
    /// The ETag, if the store gave one.
    pub e_tag: Option<String>,
    /// The version, if the store gave one.
    pub version: Option<String>,
}

/// The metadata of an object, as plain values.
pub struct ObjectMetaView {
    pub location: Seq<char>,
    pub last_modified: Timestamp,
    pub size: u64,
    pub e_tag: Option<Seq<char>>,
    pub version: Option<Seq<char>>,
}

impl View for ObjectMeta {
    type V = ObjectMetaView;

    open spec fn view(&self) -> ObjectMetaView {
        ObjectMetaView {
            location: self.location@,
            last_modified: self.last_modified,
            size: self.size,
            e_tag: opt_text(self.e_tag),
            version: opt_text(self.version),
        }
    }
}

} // verus!
