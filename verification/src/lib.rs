//! Resolution of the hardware serial number of the physical storage device
//! backing the root filesystem.
//!
//! The library works on immutable snapshots of kernel state: the mount table,
//! the block-device list, sysfs slave listings and the device manager's
//! property tables. Callers gather those snapshots (they are plain values)
//! and the library resolves, fully verified, which device backs "/" and which
//! serial string belongs to it.

pub mod devices;
pub mod errors;
pub mod laws;
pub mod model;
pub mod mounts;
pub mod pipeline;
pub mod serial;
pub mod strutil;
