//! Plain-value snapshots of the kernel state that resolution reads.
//!
//! All entities are immutable snapshots gathered fresh per invocation by the
//! caller: the mount table, the live (proc-style) mount table, the
//! block-device list, sysfs slave listings, and the device manager's
//! per-device property tables.

use vstd::prelude::*;

verus! {

/// A disk descriptor associated with a mount entry: the kernel block-device
/// name and whether the device is an LVM logical volume.
pub struct DiskDescriptor {
    pub name: String,
    pub is_lvm: bool,
}

/// One entry of the mount table. `dev` is the kernel device id backing the
/// mount; `disk` is present when the backing store is a recognized block
/// device.
pub struct MountEntry {
    pub mount_point: String,
    pub fs: String,
    pub dev: u64,
    pub disk: Option<DiskDescriptor>,
}

/// One entry of the live (proc-style) mount table, used only to discover the
/// `lowerdir=` option of an overlay root.
pub struct LiveMountEntry {
    pub dest: String,
    pub options: Vec<String>,
}

/// One entry of the system's block-device list.
pub struct BlockDevice {
    pub dev: u64,
    pub name: String,
}

/// The listing of the sysfs slaves directory of one disk, keyed by the disk's
/// kernel name. A disk with no listing in the snapshot had an unreadable
/// slaves directory.
pub struct SlavesDir {
    pub disk_name: String,
    pub entries: Vec<String>,
}

/// One property of a hardware device, as the device manager reports it.
pub struct DeviceProperty {
    pub key: String,
    pub value: String,
}

/// One device of the device manager's block subsystem: its short system name
/// and its property table.
pub struct HardwareDevice {
    pub sysname: String,
    pub properties: Vec<DeviceProperty>,
}

/// Everything resolution reads, as one immutable snapshot.
pub struct SystemSnapshot {
    pub mounts: Vec<MountEntry>,
    pub live_mounts: Vec<LiveMountEntry>,
    pub block_devices: Vec<BlockDevice>,
    pub slaves_dirs: Vec<SlavesDir>,
    pub devices: Vec<HardwareDevice>,
}

} // verus!
