//! Lookup of a device's hardware serial number in the device manager's
//! property tables, with the fixed fallback order `ID_SERIAL_SHORT` then
//! `ID_SERIAL`. Empty property values count as absent.

use vstd::prelude::*;
use vstd::string::StrSliceExecFns;
use crate::errors::LicenseSerialError;
use crate::model::{DeviceProperty, HardwareDevice};
use crate::strutil::str_eq;

verus! {

/// The preferred serial property: the cleaner vendor serial.
pub open spec fn spec_serial_short_key() -> Seq<char> {
    "ID_SERIAL_SHORT"@
}

/// The fallback serial property; it may embed vendor and model prefixes.
pub open spec fn spec_serial_key() -> Seq<char> {
    "ID_SERIAL"@
}

/// Index of the first property at or after `i` whose key is `key`.
pub open spec fn find_property_from(props: Seq<DeviceProperty>, key: Seq<char>, i: int) -> Option<
    int,
>
    decreases props.len() - i,
{
    if i < 0 || i >= props.len() {
        None
    } else if props[i].key@ == key {
        Some(i)
    } else {
        find_property_from(props, key, i + 1)
    }
}

/// The value of the first property named `key`, if any.
pub open spec fn spec_property_value(props: Seq<DeviceProperty>, key: Seq<char>) -> Option<
    Seq<char>,
> {
    match find_property_from(props, key, 0) {
        None => None,
        Some(i) => Some(props[i].value@),
    }
}

/// A present, non-empty property value.
pub open spec fn spec_nonempty(v: Option<Seq<char>>) -> bool {
    v is Some && v->0.len() > 0
}

/// The serial of one device: its non-empty `ID_SERIAL_SHORT` value if it has
/// one, else its non-empty `ID_SERIAL` value, else `SerialNotFound`.
pub open spec fn spec_serial_of(d: HardwareDevice) -> Result<Seq<char>, LicenseSerialError> {
    let short = spec_property_value(d.properties@, spec_serial_short_key());
    if spec_nonempty(short) {
        Ok(short->0)
    } else {
        let long = spec_property_value(d.properties@, spec_serial_key());
        if spec_nonempty(long) {
            Ok(long->0)
        } else {
            Err(LicenseSerialError::SerialNotFound)
        }
    }
}

/// Index of the first device at or after `i` whose system name is `name`.
pub open spec fn find_device_from(devices: Seq<HardwareDevice>, name: Seq<char>, i: int) -> Option<
    int,
>
    decreases devices.len() - i,
{
    if i < 0 || i >= devices.len() {
        None
    } else if devices[i].sysname@ == name {
        Some(i)
    } else {
        find_device_from(devices, name, i + 1)
    }
}

/// The serial of the device named `name` among the enumerated devices.
pub open spec fn spec_serial_from_devices(devices: Seq<HardwareDevice>, name: Seq<char>) -> Result<
    Seq<char>,
    LicenseSerialError,
> {
    match find_device_from(devices, name, 0) {
        None => Err(LicenseSerialError::UdevDeviceNotFound),
        Some(i) => spec_serial_of(devices[i]),
    }
}

/// Looks up the value of the first property named `key` on one device.
pub fn property_value(d: &HardwareDevice, key: &str) -> (r: Option<String>)
    ensures
        match r {
            Some(s) => spec_property_value(d.properties@, key@) == Some(s@),
            None => spec_property_value(d.properties@, key@) is None,
        },
{
    let n = d.properties.len();
    let mut r: Option<usize> = None;
    let mut i = n;
    while i > 0
        invariant
            i <= n,
            n == d.properties@.len(),
            match r {
                Some(k) => k < n && find_property_from(d.properties@, key@, i as int) == Some(
                    k as int,
                ),
                None => find_property_from(d.properties@, key@, i as int) is None,
            },
        decreases i,
    {
        i = i - 1;
        if str_eq(d.properties[i].key.as_str(), key) {
            r = Some(i);
        }
    }
    match r {
        Some(k) => Some(d.properties[k].value.clone()),
        None => None,
    }
}

/// The serial of one device, `ID_SERIAL_SHORT` preferred, empty values
/// counting as absent.
pub fn serial_of(d: &HardwareDevice) -> (r: Result<String, LicenseSerialError>)
    ensures
        match r {
            Ok(s) => spec_serial_of(*d) == Ok::<Seq<char>, LicenseSerialError>(s@),
            Err(e) => spec_serial_of(*d) == Err::<Seq<char>, LicenseSerialError>(e),
        },
{
    match property_value(d, "ID_SERIAL_SHORT") {
        Some(s) if s.as_str().unicode_len() > 0 => {
            return Ok(s);
        },
        _ => {},
    }
    match property_value(d, "ID_SERIAL") {
        Some(s) if s.as_str().unicode_len() > 0 => Ok(s),
        _ => Err(LicenseSerialError::SerialNotFound),
    }
}

/// Finds the device named `name` among the enumerated devices and looks up
/// its serial.
pub fn get_device_serial_from_name(devices: &Vec<HardwareDevice>, name: &str) -> (r: Result<
    String,
    LicenseSerialError,
>)
    ensures
        match r {
            Ok(s) => spec_serial_from_devices(devices@, name@) == Ok::<
                Seq<char>,
                LicenseSerialError,
            >(s@),
            Err(e) => spec_serial_from_devices(devices@, name@) == Err::<
                Seq<char>,
                LicenseSerialError,
            >(e),
        },
{
    let n = devices.len();
    let mut r: Option<usize> = None;
    let mut i = n;
    while i > 0
        invariant
            i <= n,
            n == devices@.len(),
            match r {
                Some(k) => k < n && find_device_from(devices@, name@, i as int) == Some(k as int),
                None => find_device_from(devices@, name@, i as int) is None,
            },
        decreases i,
    {
        i = i - 1;
        if str_eq(devices[i].sysname.as_str(), name) {
            r = Some(i);
        }
    }
    match r {
        Some(k) => serial_of(&devices[k]),
        None => Err(LicenseSerialError::UdevDeviceNotFound),
    }
}

} // verus!
