use root_device_serial::devices::{locate_lvm, locate_regular, read_lvm_slave_name, slaves_dir_path};
use root_device_serial::errors::LicenseSerialError;
use root_device_serial::model::{
    BlockDevice, DeviceProperty, DiskDescriptor, HardwareDevice, LiveMountEntry, MountEntry,
    SlavesDir, SystemSnapshot,
};
use root_device_serial::mounts::{extract_lower_dir, find_mount_at, get_root_mount, is_overlay_root};
use root_device_serial::pipeline::{
    get_device_serial, get_lvm_device_serial, get_regular_device_serial,
};
use root_device_serial::serial::get_device_serial_from_name;

fn s(x: &str) -> String {
    String::from(x)
}

fn mount(point: &str, fs: &str, dev: u64, disk: Option<(&str, bool)>) -> MountEntry {
    MountEntry {
        mount_point: s(point),
        fs: s(fs),
        dev,
        disk: disk.map(|(name, is_lvm)| DiskDescriptor { name: s(name), is_lvm }),
    }
}

fn device(sysname: &str, props: &[(&str, &str)]) -> HardwareDevice {
    HardwareDevice {
        sysname: s(sysname),
        properties: props
            .iter()
            .map(|(k, v)| DeviceProperty { key: s(k), value: s(v) })
            .collect(),
    }
}

fn plain_snapshot() -> SystemSnapshot {
    SystemSnapshot {
        mounts: vec![
            mount("/boot", "ext4", 7, Some(("sdb", false))),
            mount("/", "ext4", 5, Some(("sda", false))),
        ],
        live_mounts: Vec::new(),
        block_devices: vec![
            BlockDevice { dev: 7, name: s("sdb") },
            BlockDevice { dev: 5, name: s("sda") },
        ],
        slaves_dirs: Vec::new(),
        devices: vec![
            device("sdb", &[("ID_SERIAL_SHORT", "OTHER9")]),
            device("sda", &[("ID_SERIAL_SHORT", "WD123"), ("ID_SERIAL", "WDC_WD123")]),
        ],
    }
}

#[test]
fn plain_root_returns_short_serial() {
    let snap = plain_snapshot();
    assert_eq!(get_device_serial(&snap), Ok(s("WD123")));
}

#[test]
fn short_serial_preferred_over_long() {
    let devices = vec![device("sda", &[("ID_SERIAL", "WDC_WD123"), ("ID_SERIAL_SHORT", "WD123")])];
    assert_eq!(get_device_serial_from_name(&devices, "sda"), Ok(s("WD123")));
}

#[test]
fn absent_short_serial_falls_back_to_long() {
    let devices = vec![device("sda", &[("ID_SERIAL", "WDC_WD123")])];
    assert_eq!(get_device_serial_from_name(&devices, "sda"), Ok(s("WDC_WD123")));
}

#[test]
fn empty_short_serial_falls_back_to_long() {
    let mut snap = plain_snapshot();
    snap.devices[1] = device("sda", &[("ID_SERIAL_SHORT", ""), ("ID_SERIAL", "WDC_WD123")]);
    assert_eq!(get_device_serial(&snap), Ok(s("WDC_WD123")));
}

#[test]
fn both_serials_missing_or_empty_is_serial_not_found() {
    let devices = vec![device("sda", &[("ID_SERIAL_SHORT", ""), ("ID_SERIAL", "")])];
    assert_eq!(
        get_device_serial_from_name(&devices, "sda"),
        Err(LicenseSerialError::SerialNotFound)
    );
    let bare = vec![device("sda", &[("ID_VENDOR", "acme")])];
    assert_eq!(
        get_device_serial_from_name(&bare, "sda"),
        Err(LicenseSerialError::SerialNotFound)
    );
}

#[test]
fn overlay_root_uses_lowerdir_target_device() {
    let mut snap = plain_snapshot();
    snap.mounts = vec![
        mount("/", "overlayroot", 99, None),
        mount("/mnt/lower", "ext4", 5, Some(("sda", false))),
    ];
    snap.live_mounts = vec![LiveMountEntry {
        dest: s("/"),
        options: vec![s("rw"), s("lowerdir=/mnt/lower"), s("upperdir=/mnt/upper")],
    }];
    assert_eq!(get_device_serial(&snap), Ok(s("WD123")));
}

#[test]
fn overlay_without_lowerdir_option_is_missing_lower_dir() {
    let mut snap = plain_snapshot();
    snap.mounts = vec![mount("/", "overlayroot", 99, None)];
    snap.live_mounts = vec![LiveMountEntry { dest: s("/"), options: vec![s("rw")] }];
    assert_eq!(
        get_device_serial(&snap),
        Err(LicenseSerialError::OverlayLowerDirMissing)
    );
}

#[test]
fn overlay_lowerdir_without_mount_entry_is_root_mount_not_found() {
    let mut snap = plain_snapshot();
    snap.mounts = vec![mount("/", "overlayroot", 99, None)];
    snap.live_mounts = vec![LiveMountEntry {
        dest: s("/"),
        options: vec![s("lowerdir=/mnt/lower")],
    }];
    assert_eq!(
        get_device_serial(&snap),
        Err(LicenseSerialError::RootMountNotFound)
    );
}

#[test]
fn extract_lower_dir_strips_the_option_key() {
    let live = vec![LiveMountEntry {
        dest: s("/"),
        options: vec![s("rw"), s("lowerdir=/media/root-ro")],
    }];
    assert_eq!(extract_lower_dir(&live), Ok(s("/media/root-ro")));
}

#[test]
fn lvm_root_uses_first_slave_not_own_name() {
    let mut snap = plain_snapshot();
    snap.mounts = vec![mount("/", "ext4", 5, Some(("dm-0", true)))];
    snap.slaves_dirs = vec![SlavesDir { disk_name: s("dm-0"), entries: vec![s("sda")] }];
    assert_eq!(get_device_serial(&snap), Ok(s("WD123")));
}

#[test]
fn no_root_mount_entry_is_root_mount_not_found() {
    let mut snap = plain_snapshot();
    snap.mounts = vec![mount("/boot", "ext4", 7, Some(("sdb", false)))];
    assert_eq!(
        get_device_serial(&snap),
        Err(LicenseSerialError::RootMountNotFound)
    );
    let empty = SystemSnapshot {
        mounts: Vec::new(),
        live_mounts: Vec::new(),
        block_devices: Vec::new(),
        slaves_dirs: Vec::new(),
        devices: Vec::new(),
    };
    assert_eq!(
        get_device_serial(&empty),
        Err(LicenseSerialError::RootMountNotFound)
    );
}

#[test]
fn empty_slaves_listing_is_slave_not_found() {
    let mut snap = plain_snapshot();
    snap.mounts = vec![mount("/", "ext4", 5, Some(("dm-0", true)))];
    snap.slaves_dirs = vec![SlavesDir { disk_name: s("dm-0"), entries: Vec::new() }];
    assert_eq!(
        get_device_serial(&snap),
        Err(LicenseSerialError::LvmDeviceSlaveNotFound)
    );
}

#[test]
fn unreadable_slaves_directory_is_slaves_not_found() {
    let mut snap = plain_snapshot();
    snap.mounts = vec![mount("/", "ext4", 5, Some(("dm-0", true)))];
    snap.slaves_dirs = Vec::new();
    assert_eq!(
        get_device_serial(&snap),
        Err(LicenseSerialError::LvmDeviceSlavesNotFound)
    );
    assert_ne!(
        LicenseSerialError::LvmDeviceSlavesNotFound,
        LicenseSerialError::LvmDeviceSlaveNotFound
    );
}

#[test]
fn repeated_resolution_is_identical() {
    let snap = plain_snapshot();
    let first = get_device_serial(&snap);
    let second = get_device_serial(&snap);
    assert_eq!(first, second);
    assert_eq!(first, Ok(s("WD123")));
}

#[test]
fn device_absent_from_device_manager_is_udev_device_not_found() {
    let mut snap = plain_snapshot();
    snap.devices = vec![device("sdb", &[("ID_SERIAL_SHORT", "OTHER9")])];
    assert_eq!(
        get_device_serial(&snap),
        Err(LicenseSerialError::UdevDeviceNotFound)
    );
}

#[test]
fn unknown_device_id_is_block_device_not_found() {
    let mut snap = plain_snapshot();
    snap.block_devices = vec![BlockDevice { dev: 7, name: s("sdb") }];
    assert_eq!(
        get_device_serial(&snap),
        Err(LicenseSerialError::BlockDeviceNotFound)
    );
}

#[test]
fn mount_without_disk_is_root_disk_not_found() {
    let mut snap = plain_snapshot();
    snap.mounts = vec![mount("/", "nfs", 5, None)];
    assert_eq!(
        get_device_serial(&snap),
        Err(LicenseSerialError::RootDiskNotFound)
    );
}

#[test]
fn find_mount_at_returns_first_match() {
    let mounts = vec![
        mount("/", "overlayroot", 1, None),
        mount("/", "ext4", 2, Some(("sda", false))),
    ];
    assert_eq!(find_mount_at(&mounts, "/"), Some(0));
    assert_eq!(find_mount_at(&mounts, "/var"), None);
    assert!(is_overlay_root(&mounts[0]));
    assert!(!is_overlay_root(&mounts[1]));
}

#[test]
fn locate_regular_maps_device_id_to_name() {
    let devices = vec![
        BlockDevice { dev: 3, name: s("sdc") },
        BlockDevice { dev: 5, name: s("sda") },
    ];
    assert_eq!(locate_regular(&devices, 5), Ok(s("sda")));
    assert_eq!(
        locate_regular(&devices, 9),
        Err(LicenseSerialError::BlockDeviceNotFound)
    );
}

#[test]
fn read_lvm_slave_name_picks_first_entry() {
    assert_eq!(read_lvm_slave_name(&vec![s("sda"), s("sdb")]), Ok(s("sda")));
    assert_eq!(
        read_lvm_slave_name(&Vec::new()),
        Err(LicenseSerialError::LvmDeviceSlaveNotFound)
    );
}

#[test]
fn locate_lvm_finds_listing_by_disk_name() {
    let dirs = vec![
        SlavesDir { disk_name: s("dm-1"), entries: vec![s("sdb")] },
        SlavesDir { disk_name: s("dm-0"), entries: vec![s("sda"), s("sdc")] },
    ];
    assert_eq!(locate_lvm(&dirs, "dm-0"), Ok(s("sda")));
    assert_eq!(
        locate_lvm(&dirs, "dm-7"),
        Err(LicenseSerialError::LvmDeviceSlavesNotFound)
    );
}

#[test]
fn slaves_dir_path_is_built_from_disk_name() {
    assert_eq!(slaves_dir_path("dm-0"), s("/sys/block/dm-0/slaves"));
}

#[test]
fn lvm_serial_of_named_disk() {
    let dirs = vec![SlavesDir { disk_name: s("dm-0"), entries: vec![s("sda")] }];
    let devices = vec![device("sda", &[("ID_SERIAL_SHORT", "WD123")])];
    assert_eq!(get_lvm_device_serial(&dirs, &devices, "dm-0"), Ok(s("WD123")));
}

#[test]
fn regular_serial_of_device_id() {
    let block_devices = vec![BlockDevice { dev: 5, name: s("sda") }];
    let devices = vec![device("sda", &[("ID_SERIAL_SHORT", "WD123")])];
    assert_eq!(
        get_regular_device_serial(&block_devices, &devices, 5),
        Ok(s("WD123"))
    );
}

#[test]
fn get_root_mount_plain_and_overlay() {
    let mounts = vec![
        mount("/home", "ext4", 9, None),
        mount("/", "ext4", 5, Some(("sda", false))),
    ];
    assert_eq!(get_root_mount(&mounts, &Vec::new()), Ok(1));

    let overlay_mounts = vec![
        mount("/", "overlayroot", 99, None),
        mount("/mnt/lower", "ext4", 5, Some(("sda", false))),
    ];
    let live = vec![LiveMountEntry {
        dest: s("/"),
        options: vec![s("lowerdir=/mnt/lower")],
    }];
    assert_eq!(get_root_mount(&overlay_mounts, &live), Ok(1));
}

#[test]
fn first_lowerdir_option_wins() {
    let live = vec![LiveMountEntry {
        dest: s("/"),
        options: vec![s("lowerdir=/first"), s("lowerdir=/second")],
    }];
    assert_eq!(extract_lower_dir(&live), Ok(s("/first")));
}

#[test]
fn overlay_with_no_live_root_entry_is_root_mount_not_found() {
    let mut snap = plain_snapshot();
    snap.mounts = vec![mount("/", "overlayroot", 99, None)];
    snap.live_mounts = vec![LiveMountEntry {
        dest: s("/var"),
        options: vec![s("lowerdir=/mnt/lower")],
    }];
    assert_eq!(
        get_device_serial(&snap),
        Err(LicenseSerialError::RootMountNotFound)
    );
}

#[test]
fn error_messages_name_the_failure() {
    assert_eq!(
        LicenseSerialError::RootMountNotFound.message(),
        "failed to find root mount entry"
    );
    assert_eq!(LicenseSerialError::SerialNotFound.message(), "serial not found");
    assert_eq!(
        LicenseSerialError::LvmDeviceSlavesNotFound.message(),
        "slave devices not found for LVM root"
    );
    assert_eq!(
        LicenseSerialError::LvmDeviceSlaveNotFound.message(),
        "slave device not found for LVM root"
    );
}
