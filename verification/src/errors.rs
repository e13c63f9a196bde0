//! The error taxonomy of root-device resolution.
//!
//! Every stage of the pipeline maps exactly one failure condition to one
//! variant, so callers can tell failure reasons apart. Errors propagate
//! unchanged: the first failing stage decides the result.

use vstd::prelude::*;

verus! {

/// One error kind per failure condition of the resolution pipeline.
#[derive(Clone, Copy, Debug, PartialEq, Eq, Structural)]
pub enum LicenseSerialError {
    /// The mount table could not be read at all.
    MountTableUnreadable,
    /// No mount entry for "/" (directly, or at the overlay lower dir).
    RootMountNotFound,
    /// The root mount is an overlay but carries no `lowerdir=` option.
    OverlayLowerDirMissing,
    /// The resolved root mount is not backed by a known block device.
    RootDiskNotFound,
    /// The block-device list could not be read.
    DeviceBlockListReadFailure,
    /// No block device matches the root mount's device id.
    BlockDeviceNotFound,
    /// The sysfs slaves directory of an LVM disk could not be read.
    LvmDeviceSlavesNotFound,
    /// The sysfs slaves directory of an LVM disk is empty.
    LvmDeviceSlaveNotFound,
    /// Enumerating the block subsystem of the device manager failed.
    UdevDeviceScanFailure,
    /// The device manager knows no device of the resolved name.
    UdevDeviceNotFound,
    /// The device carries neither a non-empty `ID_SERIAL_SHORT` nor a
    /// non-empty `ID_SERIAL` property.
    SerialNotFound,
}

impl LicenseSerialError {
    /// The human-readable description of this error kind.
    pub open spec fn spec_message(self) -> Seq<char> {
        match self {
            LicenseSerialError::MountTableUnreadable => "failed to read mount table"@,
            LicenseSerialError::RootMountNotFound => "failed to find root mount entry"@,
            LicenseSerialError::OverlayLowerDirMissing => "overlay root has no lowerdir option"@,
            LicenseSerialError::RootDiskNotFound => "failed to get root device disk"@,
            LicenseSerialError::DeviceBlockListReadFailure => "failed to read device block list"@,
            LicenseSerialError::BlockDeviceNotFound => "failed to find block device"@,
            LicenseSerialError::LvmDeviceSlavesNotFound => "slave devices not found for LVM root"@,
            LicenseSerialError::LvmDeviceSlaveNotFound => "slave device not found for LVM root"@,
            LicenseSerialError::UdevDeviceScanFailure => "failed to scan devices"@,
            LicenseSerialError::UdevDeviceNotFound => "failed to find udev device"@,
            LicenseSerialError::SerialNotFound => "serial not found"@,
        }
    }

    /// The human-readable description of this error kind.
    pub fn message(&self) -> (r: &'static str)
        ensures
            r@ == self.spec_message(),
    {
        match self {
            LicenseSerialError::MountTableUnreadable => "failed to read mount table",
            LicenseSerialError::RootMountNotFound => "failed to find root mount entry",
            LicenseSerialError::OverlayLowerDirMissing => "overlay root has no lowerdir option",
            LicenseSerialError::RootDiskNotFound => "failed to get root device disk",
            LicenseSerialError::DeviceBlockListReadFailure => "failed to read device block list",
            LicenseSerialError::BlockDeviceNotFound => "failed to find block device",
            LicenseSerialError::LvmDeviceSlavesNotFound => "slave devices not found for LVM root",
            LicenseSerialError::LvmDeviceSlaveNotFound => "slave device not found for LVM root",
            LicenseSerialError::UdevDeviceScanFailure => "failed to scan devices",
            LicenseSerialError::UdevDeviceNotFound => "failed to find udev device",
            LicenseSerialError::SerialNotFound => "serial not found",
        }
    }
}

} // verus!
