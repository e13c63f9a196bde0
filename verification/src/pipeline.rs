//! The end-to-end resolution pipeline: root mount, disk classification,
//! physical device location, serial lookup. A single linear result chain:
//! the first failing stage decides the outcome.

use vstd::prelude::*;
use crate::errors::LicenseSerialError;
use crate::devices::{
    classify, locate_lvm, locate_regular, spec_classify, spec_locate_lvm, spec_locate_regular,
};
use crate::model::{BlockDevice, HardwareDevice, SlavesDir, SystemSnapshot};
use crate::mounts::{get_root_mount, spec_resolve_root_mount};
use crate::serial::{get_device_serial_from_name, spec_serial_from_devices};

verus! {

/// The serial of the physical device behind the LVM disk named `disk_name`:
/// the serial of the first slave entry of its slaves listing.
pub open spec fn spec_lvm_serial(
    dirs: Seq<SlavesDir>,
    devices: Seq<HardwareDevice>,
    disk_name: Seq<char>,
) -> Result<Seq<char>, LicenseSerialError> {
    match spec_locate_lvm(dirs, disk_name) {
        Err(e) => Err(e),
        Ok(name) => spec_serial_from_devices(devices, name),
    }
}

/// The serial of the plain block device with device id `dev`.
pub open spec fn spec_regular_serial(
    block_devices: Seq<BlockDevice>,
    devices: Seq<HardwareDevice>,
    dev: u64,
) -> Result<Seq<char>, LicenseSerialError> {
    match spec_locate_regular(block_devices, dev) {
        Err(e) => Err(e),
        Ok(name) => spec_serial_from_devices(devices, name),
    }
}

/// The serial of the physical storage device backing "/", resolved from one
/// snapshot: root mount (with one overlay unwrap), disk classification, the
/// LVM or the regular branch, then serial lookup.
pub open spec fn spec_device_serial(s: SystemSnapshot) -> Result<Seq<char>, LicenseSerialError> {
    match spec_resolve_root_mount(s.mounts@, s.live_mounts@) {
        Err(e) => Err(e),
        Ok(i) => match spec_classify(s.mounts@[i]) {
            Err(e) => Err(e),
            Ok(d) => if d.is_lvm {
                spec_lvm_serial(s.slaves_dirs@, s.devices@, d.name@)
            } else {
                spec_regular_serial(s.block_devices@, s.devices@, s.mounts@[i].dev)
            },
        },
    }
}

/// Resolves the serial of the physical device behind the LVM disk named
/// `disk_name`, from its slaves listing and the device manager's devices.
pub fn get_lvm_device_serial(
    dirs: &Vec<SlavesDir>,
    devices: &Vec<HardwareDevice>,
    disk_name: &str,
) -> (r: Result<String, LicenseSerialError>)
    ensures
        match r {
            Ok(s) => spec_lvm_serial(dirs@, devices@, disk_name@) == Ok::<
                Seq<char>,
                LicenseSerialError,
            >(s@),
            Err(e) => spec_lvm_serial(dirs@, devices@, disk_name@) == Err::<
                Seq<char>,
                LicenseSerialError,
            >(e),
        },
{
    match locate_lvm(dirs, disk_name) {
        Err(e) => Err(e),
        Ok(name) => get_device_serial_from_name(devices, name.as_str()),
    }
}

/// Resolves the serial of the plain block device with device id `dev`, from
/// the block-device list and the device manager's devices.
pub fn get_regular_device_serial(
    block_devices: &Vec<BlockDevice>,
    devices: &Vec<HardwareDevice>,
    dev: u64,
) -> (r: Result<String, LicenseSerialError>)
    ensures
        match r {
            Ok(s) => spec_regular_serial(block_devices@, devices@, dev) == Ok::<
                Seq<char>,
                LicenseSerialError,
            >(s@),
            Err(e) => spec_regular_serial(block_devices@, devices@, dev) == Err::<
                Seq<char>,
                LicenseSerialError,
            >(e),
        },
{
    match locate_regular(block_devices, dev) {
        Err(e) => Err(e),
        Ok(name) => get_device_serial_from_name(devices, name.as_str()),
    }
}

/// Resolves the hardware serial of the physical storage device backing "/"
/// from one system snapshot. The result is a function of the snapshot alone:
/// on an unchanged snapshot, repeated calls return the same serial.
pub fn get_device_serial(s: &SystemSnapshot) -> (r: Result<String, LicenseSerialError>)
    ensures
        match r {
            Ok(serial) => spec_device_serial(*s) == Ok::<Seq<char>, LicenseSerialError>(serial@),
            Err(e) => spec_device_serial(*s) == Err::<Seq<char>, LicenseSerialError>(e),
        },
{
    let i = match get_root_mount(&s.mounts, &s.live_mounts) {
        Ok(i) => i,
        Err(e) => {
            return Err(e);
        },
    };
    let root_mount = &s.mounts[i];
    let root_disk = match classify(root_mount) {
        Ok(d) => d,
        Err(e) => {
            return Err(e);
        },
    };
    if root_disk.is_lvm {
        get_lvm_device_serial(&s.slaves_dirs, &s.devices, root_disk.name.as_str())
    } else {
        get_regular_device_serial(&s.block_devices, &s.devices, root_mount.dev)
    }
}

} // verus!
