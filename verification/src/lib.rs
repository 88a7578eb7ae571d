//! Verified core of an object store backed by the Ceph RADOS Gateway (RGW)
//! storage abstraction layer.

pub mod text;
pub mod error;
pub mod ffi;
pub mod path;
pub mod location;
pub mod time;
pub mod object;
pub mod memory;
pub mod store;
pub mod providers;
pub mod laws;
