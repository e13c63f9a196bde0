[package]
name = "root_device_serial"
version = "0.1.0"
edition = "2021"
publish = false

[dependencies]
lfs-core = "=0.11.2"
proc-mounts = "=0.3.0"
thiserror = "=2.0.21"
udev = "=0.9.3"
