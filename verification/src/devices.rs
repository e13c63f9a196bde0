//! Classification of the root disk and location of the physical block device
//! behind it: by device id for a plain disk, by the first sysfs slave entry
//! for an LVM logical volume.

use vstd::prelude::*;
use vstd::string::StringExecFns;
use crate::errors::LicenseSerialError;
use crate::model::{BlockDevice, DiskDescriptor, MountEntry, SlavesDir};
use crate::strutil::str_eq;

verus! {

/// The disk descriptor of the resolved root mount; absent when the mount is
/// not backed by a recognized block device.
pub open spec fn spec_classify(m: MountEntry) -> Result<DiskDescriptor, LicenseSerialError> {
    match m.disk {
        Some(d) => Ok(d),
        None => Err(LicenseSerialError::RootDiskNotFound),
    }
}

/// Index of the first block device at or after `i` whose device id is `dev`.
pub open spec fn find_block_device_from(devices: Seq<BlockDevice>, dev: u64, i: int) -> Option<int>
    decreases devices.len() - i,
{
    if i < 0 || i >= devices.len() {
        None
    } else if devices[i].dev == dev {
        Some(i)
    } else {
        find_block_device_from(devices, dev, i + 1)
    }
}

/// The name of the block device whose device id is `dev`.
pub open spec fn spec_locate_regular(devices: Seq<BlockDevice>, dev: u64) -> Result<
    Seq<char>,
    LicenseSerialError,
> {
    match find_block_device_from(devices, dev, 0) {
        None => Err(LicenseSerialError::BlockDeviceNotFound),
        Some(i) => Ok(devices[i].name@),
    }
}

/// The first entry of an LVM disk's slaves listing: the name of the physical
/// member device.
pub open spec fn spec_pick_slave(entries: Seq<String>) -> Result<Seq<char>, LicenseSerialError> {
    if entries.len() == 0 {
        Err(LicenseSerialError::LvmDeviceSlaveNotFound)
    } else {
        Ok(entries[0]@)
    }
}

/// Index of the first slaves listing at or after `i` that belongs to the disk
/// named `name`.
pub open spec fn find_slaves_dir_from(dirs: Seq<SlavesDir>, name: Seq<char>, i: int) -> Option<int>
    decreases dirs.len() - i,
{
    if i < 0 || i >= dirs.len() {
        None
    } else if dirs[i].disk_name@ == name {
        Some(i)
    } else {
        find_slaves_dir_from(dirs, name, i + 1)
    }
}

/// The name of the physical member device of the LVM disk named `name`: the
/// first entry of its slaves listing. A disk without a listing had an
/// unreadable slaves directory; a disk with an empty listing has no slave.
pub open spec fn spec_locate_lvm(dirs: Seq<SlavesDir>, name: Seq<char>) -> Result<
    Seq<char>,
    LicenseSerialError,
> {
    match find_slaves_dir_from(dirs, name, 0) {
        None => Err(LicenseSerialError::LvmDeviceSlavesNotFound),
        Some(i) => spec_pick_slave(dirs[i].entries@),
    }
}

/// Classifies the resolved root mount: its disk descriptor, or
/// `RootDiskNotFound` when the mount is not backed by a block device.
pub fn classify(m: &MountEntry) -> (r: Result<&DiskDescriptor, LicenseSerialError>)
    ensures
        match r {
            Ok(d) => spec_classify(*m) == Ok::<DiskDescriptor, LicenseSerialError>(*d),
            Err(e) => spec_classify(*m) == Err::<DiskDescriptor, LicenseSerialError>(e),
        },
{
    match &m.disk {
        Some(d) => Ok(d),
        None => Err(LicenseSerialError::RootDiskNotFound),
    }
}

/// Finds the name of the block device with device id `dev`.
pub fn locate_regular(devices: &Vec<BlockDevice>, dev: u64) -> (r: Result<
    String,
    LicenseSerialError,
>)
    ensures
        match r {
            Ok(s) => spec_locate_regular(devices@, dev) == Ok::<Seq<char>, LicenseSerialError>(s@),
            Err(e) => spec_locate_regular(devices@, dev) == Err::<Seq<char>, LicenseSerialError>(
                e,
            ),
        },
{
    let n = devices.len();
    let mut i = n;
    let mut r: Option<usize> = None;
    while i > 0
        invariant
            i <= n,
            n == devices@.len(),
            match r {
                Some(k) => k < n && find_block_device_from(devices@, dev, i as int) == Some(
                    k as int,
                ),
                None => find_block_device_from(devices@, dev, i as int) is None,
            },
        decreases i,
    {
        i = i - 1;
        if devices[i].dev == dev {
            r = Some(i);
        }
    }
    match r {
        Some(k) => Ok(devices[k].name.clone()),
        None => Err(LicenseSerialError::BlockDeviceNotFound),
    }
}

/// Picks the first entry of an LVM disk's slaves listing: the physical member
/// device name. An empty listing yields `LvmDeviceSlaveNotFound`.
pub fn read_lvm_slave_name(entries: &Vec<String>) -> (r: Result<String, LicenseSerialError>)
    ensures
        match r {
            Ok(s) => spec_pick_slave(entries@) == Ok::<Seq<char>, LicenseSerialError>(s@),
            Err(e) => spec_pick_slave(entries@) == Err::<Seq<char>, LicenseSerialError>(e),
        },
{
    if entries.len() == 0 {
        Err(LicenseSerialError::LvmDeviceSlaveNotFound)
    } else {
        Ok(entries[0].clone())
    }
}

/// Finds the physical member device name of the LVM disk named `name` among
/// the gathered slaves listings.
pub fn locate_lvm(dirs: &Vec<SlavesDir>, name: &str) -> (r: Result<String, LicenseSerialError>)
    ensures
        match r {
            Ok(s) => spec_locate_lvm(dirs@, name@) == Ok::<Seq<char>, LicenseSerialError>(s@),
            Err(e) => spec_locate_lvm(dirs@, name@) == Err::<Seq<char>, LicenseSerialError>(e),
        },
{
    let n = dirs.len();
    let mut r: Option<usize> = None;
    let mut i = n;
    while i > 0
        invariant
            i <= n,
            n == dirs@.len(),
            match r {
                Some(k) => k < n && find_slaves_dir_from(dirs@, name@, i as int) == Some(k as int),
                None => find_slaves_dir_from(dirs@, name@, i as int) is None,
            },
        decreases i,
    {
        i = i - 1;
        if str_eq(dirs[i].disk_name.as_str(), name) {
            r = Some(i);
        }
    }
    match r {
        Some(k) => read_lvm_slave_name(&dirs[k].entries),
        None => Err(LicenseSerialError::LvmDeviceSlavesNotFound),
    }
}

/// The sysfs directory that lists the slave (physical member) devices of the
/// block device named `name`.
pub fn slaves_dir_path(name: &str) -> (r: String)
    ensures
        r@ == "/sys/block/"@ + name@ + "/slaves"@,
{
    let mut r = String::from_str("/sys/block/");
    r.append(name);
    r.append("/slaves");
    proof {
        assert(r@ =~= "/sys/block/"@ + name@ + "/slaves"@);
    }
    r
}

} // verus!
