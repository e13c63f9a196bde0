//! The guarantees of the resolution pipeline, stated and proved over the
//! specification functions that the executable functions' contracts use.

use vstd::prelude::*;
use crate::errors::LicenseSerialError;
use crate::devices::{find_block_device_from, find_slaves_dir_from};
use crate::model::{BlockDevice, DiskDescriptor, HardwareDevice, SlavesDir, SystemSnapshot};
use crate::mounts::{
    find_mount_from, spec_is_overlay_root, spec_lower_dir, spec_resolve_root_mount, spec_root_path,
};
use crate::pipeline::{spec_device_serial, spec_lvm_serial, spec_regular_serial};
use crate::serial::{
    find_device_from, spec_nonempty, spec_property_value, spec_serial_from_devices, spec_serial_key,
    spec_serial_of, spec_serial_short_key,
};

verus! {

/// A mount table with a non-overlay root entry backed by a known block
/// device resolves to that device's serial: resolution returns exactly the
/// serial of the device-manager entry named like the block device that
/// carries the root mount's device id.
pub proof fn lemma_regular_root_serial(s: SystemSnapshot, i: int, d: DiskDescriptor, b: int, h: int)
    requires
        find_mount_from(s.mounts@, spec_root_path(), 0) == Some(i),
        !spec_is_overlay_root(s.mounts@[i]),
        s.mounts@[i].disk == Some(d),
        !d.is_lvm,
        find_block_device_from(s.block_devices@, s.mounts@[i].dev, 0) == Some(b),
        find_device_from(s.devices@, s.block_devices@[b].name@, 0) == Some(h),
    ensures
        spec_device_serial(s) == spec_serial_of(s.devices@[h]),
{
}

/// Whenever a device carries a non-empty `ID_SERIAL_SHORT` property, its
/// serial is that value.
pub proof fn lemma_serial_short_preferred(d: HardwareDevice)
    requires
        spec_nonempty(spec_property_value(d.properties@, spec_serial_short_key())),
    ensures
        spec_serial_of(d) == Ok::<Seq<char>, LicenseSerialError>(
            spec_property_value(d.properties@, spec_serial_short_key())->0,
        ),
{
}

/// When `ID_SERIAL_SHORT` is absent or empty but `ID_SERIAL` is present and
/// non-empty, the serial is the `ID_SERIAL` value.
pub proof fn lemma_serial_fallback(d: HardwareDevice)
    requires
        !spec_nonempty(spec_property_value(d.properties@, spec_serial_short_key())),
        spec_nonempty(spec_property_value(d.properties@, spec_serial_key())),
    ensures
        spec_serial_of(d) == Ok::<Seq<char>, LicenseSerialError>(
            spec_property_value(d.properties@, spec_serial_key())->0,
        ),
{
}

/// When the root entry is an overlay, resolution follows the `lowerdir=`
/// target: the resolved root mount is the entry mounted at the lower-dir
/// path, not the overlay entry itself.
pub proof fn lemma_overlay_uses_lower_mount(
    s: SystemSnapshot,
    i: int,
    lower: Seq<char>,
    k: int,
)
    requires
        find_mount_from(s.mounts@, spec_root_path(), 0) == Some(i),
        spec_is_overlay_root(s.mounts@[i]),
        spec_lower_dir(s.live_mounts@) == Ok::<Seq<char>, LicenseSerialError>(lower),
        find_mount_from(s.mounts@, lower, 0) == Some(k),
    ensures
        spec_resolve_root_mount(s.mounts@, s.live_mounts@) == Ok::<int, LicenseSerialError>(k),
{
}

/// An LVM root disk is resolved through the first entry of its slaves
/// listing: the device manager is queried for that slave's name, not for the
/// LVM device's own name.
pub proof fn lemma_lvm_uses_first_slave(
    dirs: Seq<SlavesDir>,
    devices: Seq<HardwareDevice>,
    name: Seq<char>,
    j: int,
)
    requires
        find_slaves_dir_from(dirs, name, 0) == Some(j),
        dirs[j].entries@.len() > 0,
    ensures
        spec_lvm_serial(dirs, devices, name) == spec_serial_from_devices(
            devices,
            dirs[j].entries@[0]@,
        ),
{
}

/// Without a root mount entry, resolution fails with `RootMountNotFound`;
/// no serial (in particular no empty string) is produced.
pub proof fn lemma_no_root_mount(s: SystemSnapshot)
    requires
        find_mount_from(s.mounts@, spec_root_path(), 0) is None,
    ensures
        spec_device_serial(s) == Err::<Seq<char>, LicenseSerialError>(
            LicenseSerialError::RootMountNotFound,
        ),
{
}

/// An LVM disk whose slaves listing is present but empty yields
/// `LvmDeviceSlaveNotFound` — a different error than the one for an
/// unreadable slaves directory.
pub proof fn lemma_lvm_empty_slaves(
    dirs: Seq<SlavesDir>,
    devices: Seq<HardwareDevice>,
    name: Seq<char>,
    j: int,
)
    requires
        find_slaves_dir_from(dirs, name, 0) == Some(j),
        dirs[j].entries@.len() == 0,
    ensures
        spec_lvm_serial(dirs, devices, name) == Err::<Seq<char>, LicenseSerialError>(
            LicenseSerialError::LvmDeviceSlaveNotFound,
        ),
        spec_lvm_serial(dirs, devices, name) != Err::<Seq<char>, LicenseSerialError>(
            LicenseSerialError::LvmDeviceSlavesNotFound,
        ),
{
}

/// An LVM disk without a readable slaves directory yields
/// `LvmDeviceSlavesNotFound`.
pub proof fn lemma_lvm_slaves_dir_unreadable(
    dirs: Seq<SlavesDir>,
    devices: Seq<HardwareDevice>,
    name: Seq<char>,
)
    requires
        find_slaves_dir_from(dirs, name, 0) is None,
    ensures
        spec_lvm_serial(dirs, devices, name) == Err::<Seq<char>, LicenseSerialError>(
            LicenseSerialError::LvmDeviceSlavesNotFound,
        ),
{
}

/// Resolution is deterministic and idempotent: any two results that meet the
/// contract of `get_device_serial` against one unchanged snapshot are equal.
pub proof fn lemma_resolution_deterministic(
    s: SystemSnapshot,
    r1: Result<Seq<char>, LicenseSerialError>,
    r2: Result<Seq<char>, LicenseSerialError>,
)
    requires
        r1 == spec_device_serial(s),
        r2 == spec_device_serial(s),
    ensures
        r1 == r2,
{
}

/// A device that the block-device list knows but the device manager does not
/// enumerate yields `UdevDeviceNotFound`, not `BlockDeviceNotFound`.
pub proof fn lemma_device_missing_from_manager(
    block_devices: Seq<BlockDevice>,
    devices: Seq<HardwareDevice>,
    dev: u64,
    b: int,
)
    requires
        find_block_device_from(block_devices, dev, 0) == Some(b),
        find_device_from(devices, block_devices[b].name@, 0) is None,
    ensures
        spec_regular_serial(block_devices, devices, dev) == Err::<Seq<char>, LicenseSerialError>(
            LicenseSerialError::UdevDeviceNotFound,
        ),
        spec_regular_serial(block_devices, devices, dev) != Err::<Seq<char>, LicenseSerialError>(
            LicenseSerialError::BlockDeviceNotFound,
        ),
{
}

/// A serial, once returned, is never the empty string.
pub proof fn lemma_serial_never_empty(s: SystemSnapshot)
    requires
        spec_device_serial(s) is Ok,
    ensures
        spec_device_serial(s)->Ok_0.len() > 0,
{
}

} // verus!
