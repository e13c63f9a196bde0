//! Resolution of the root mount entry, unwrapping one level of
//! overlay-filesystem indirection.

use vstd::prelude::*;
use vstd::string::StrSliceExecFns;
use crate::errors::LicenseSerialError;
use crate::model::{LiveMountEntry, MountEntry};
use crate::strutil::{has_prefix, str_after, str_eq, str_has_prefix};

verus! {

/// The path of the root mount point.
pub open spec fn spec_root_path() -> Seq<char> {
    "/"@
}

/// The filesystem-type marker of an overlay root.
pub open spec fn spec_overlay_marker() -> Seq<char> {
    "overlayroot"@
}

/// The option key that carries the overlay's lower directory.
pub open spec fn spec_lowerdir_prefix() -> Seq<char> {
    "lowerdir="@
}

/// The mount entry is the writable top of an overlay root.
pub open spec fn spec_is_overlay_root(m: MountEntry) -> bool {
    m.fs@ == spec_overlay_marker()
}

/// Index of the first entry at or after `i` whose mount point is `path`.
pub open spec fn find_mount_from(mounts: Seq<MountEntry>, path: Seq<char>, i: int) -> Option<int>
    decreases mounts.len() - i,
{
    if i < 0 || i >= mounts.len() {
        None
    } else if mounts[i].mount_point@ == path {
        Some(i)
    } else {
        find_mount_from(mounts, path, i + 1)
    }
}

/// Index of the first live entry at or after `i` whose destination is `path`.
pub open spec fn find_live_mount_from(live: Seq<LiveMountEntry>, path: Seq<char>, i: int) -> Option<
    int,
>
    decreases live.len() - i,
{
    if i < 0 || i >= live.len() {
        None
    } else if live[i].dest@ == path {
        Some(i)
    } else {
        find_live_mount_from(live, path, i + 1)
    }
}

/// Index of the first option at or after `i` that starts with `prefix`.
pub open spec fn find_option_from(options: Seq<String>, prefix: Seq<char>, i: int) -> Option<int>
    decreases options.len() - i,
{
    if i < 0 || i >= options.len() {
        None
    } else if has_prefix(options[i]@, prefix) {
        Some(i)
    } else {
        find_option_from(options, prefix, i + 1)
    }
}

/// The lower-directory path of the overlay root, read from the live mount
/// table: the first entry mounted at "/" must carry a `lowerdir=` option,
/// whose value is the path.
pub open spec fn spec_lower_dir(live: Seq<LiveMountEntry>) -> Result<
    Seq<char>,
    LicenseSerialError,
> {
    match find_live_mount_from(live, spec_root_path(), 0) {
        None => Err(LicenseSerialError::RootMountNotFound),
        Some(i) => match find_option_from(live[i].options@, spec_lowerdir_prefix(), 0) {
            None => Err(LicenseSerialError::OverlayLowerDirMissing),
            Some(j) => Ok(
                live[i].options@[j]@.subrange(
                    spec_lowerdir_prefix().len() as int,
                    live[i].options@[j]@.len() as int,
                ),
            ),
        },
    }
}

/// The index of the resolved root mount: the first entry mounted at "/",
/// except that an overlay root is unwrapped once, to the first entry mounted
/// at its `lowerdir=` path.
pub open spec fn spec_resolve_root_mount(
    mounts: Seq<MountEntry>,
    live: Seq<LiveMountEntry>,
) -> Result<int, LicenseSerialError> {
    match find_mount_from(mounts, spec_root_path(), 0) {
        None => Err(LicenseSerialError::RootMountNotFound),
        Some(i) => {
            if spec_is_overlay_root(mounts[i]) {
                match spec_lower_dir(live) {
                    Err(e) => Err(e),
                    Ok(lower) => match find_mount_from(mounts, lower, 0) {
                        None => Err(LicenseSerialError::RootMountNotFound),
                        Some(k) => Ok(k),
                    },
                }
            } else {
                Ok(i)
            }
        },
    }
}

/// Finds the first mount entry whose mount point equals `path`.
pub fn find_mount_at(mounts: &Vec<MountEntry>, path: &str) -> (r: Option<usize>)
    ensures
        match r {
            Some(i) => i < mounts@.len() && find_mount_from(mounts@, path@, 0) == Some(i as int),
            None => find_mount_from(mounts@, path@, 0) is None,
        },
{
    let n = mounts.len();
    let mut i = n;
    let mut r: Option<usize> = None;
    while i > 0
        invariant
            i <= n,
            n == mounts@.len(),
            match r {
                Some(k) => k < n && find_mount_from(mounts@, path@, i as int) == Some(k as int),
                None => find_mount_from(mounts@, path@, i as int) is None,
            },
        decreases i,
    {
        i = i - 1;
        if str_eq(mounts[i].mount_point.as_str(), path) {
            r = Some(i);
        }
    }
    r
}

/// The mount entry is the writable top of an overlay root.
pub fn is_overlay_root(m: &MountEntry) -> (r: bool)
    ensures
        r == spec_is_overlay_root(*m),
{
    str_eq(m.fs.as_str(), "overlayroot")
}

/// Extracts the overlay lower-directory path from the live mount table.
pub fn extract_lower_dir(live: &Vec<LiveMountEntry>) -> (r: Result<String, LicenseSerialError>)
    ensures
        match r {
            Ok(s) => spec_lower_dir(live@) == Ok::<Seq<char>, LicenseSerialError>(s@),
            Err(e) => spec_lower_dir(live@) == Err::<Seq<char>, LicenseSerialError>(e),
        },
{
    let entry = match find_live_mount(live) {
        Some(i) => &live[i],
        None => {
            return Err(LicenseSerialError::RootMountNotFound);
        },
    };
    let opt = match find_lowerdir_option(&entry.options) {
        Some(j) => &entry.options[j],
        None => {
            return Err(LicenseSerialError::OverlayLowerDirMissing);
        },
    };
    let prefix_len = "lowerdir=".unicode_len();
    let value = str_after(opt.as_str(), prefix_len);
    Ok(value.to_owned())
}

/// Finds the first live mount entry whose destination is "/".
fn find_live_mount(live: &Vec<LiveMountEntry>) -> (r: Option<usize>)
    ensures
        match r {
            Some(i) => i < live@.len() && find_live_mount_from(live@, spec_root_path(), 0) == Some(
                i as int,
            ),
            None => find_live_mount_from(live@, spec_root_path(), 0) is None,
        },
{
    let n = live.len();
    let mut i = n;
    let mut r: Option<usize> = None;
    while i > 0
        invariant
            i <= n,
            n == live@.len(),
            match r {
                Some(k) => k < n && find_live_mount_from(live@, spec_root_path(), i as int) == Some(
                    k as int,
                ),
                None => find_live_mount_from(live@, spec_root_path(), i as int) is None,
            },
        decreases i,
    {
        i = i - 1;
        if str_eq(live[i].dest.as_str(), "/") {
            r = Some(i);
        }
    }
    r
}

/// Finds the first option that starts with `lowerdir=`.
fn find_lowerdir_option(options: &Vec<String>) -> (r: Option<usize>)
    ensures
        match r {
            Some(j) => j < options@.len() && find_option_from(
                options@,
                spec_lowerdir_prefix(),
                0,
            ) == Some(j as int) && has_prefix(options@[j as int]@, spec_lowerdir_prefix()),
            None => find_option_from(options@, spec_lowerdir_prefix(), 0) is None,
        },
{
    let n = options.len();
    let mut i = n;
    let mut r: Option<usize> = None;
    while i > 0
        invariant
            i <= n,
            n == options@.len(),
            match r {
                Some(k) => k < n && find_option_from(options@, spec_lowerdir_prefix(), i as int)
                    == Some(k as int) && has_prefix(options@[k as int]@, spec_lowerdir_prefix()),
                None => find_option_from(options@, spec_lowerdir_prefix(), i as int) is None,
            },
        decreases i,
    {
        i = i - 1;
        if str_has_prefix(options[i].as_str(), "lowerdir=") {
            r = Some(i);
        }
    }
    r
}

/// Resolves the index of the root mount entry in `mounts`, consulting the
/// live mount table `live` only when the entry at "/" is an overlay root.
pub fn get_root_mount(mounts: &Vec<MountEntry>, live: &Vec<LiveMountEntry>) -> (r: Result<
    usize,
    LicenseSerialError,
>)
    ensures
        match r {
            Ok(i) => i < mounts@.len() && spec_resolve_root_mount(mounts@, live@) == Ok::<
                int,
                LicenseSerialError,
            >(i as int),
            Err(e) => spec_resolve_root_mount(mounts@, live@) == Err::<int, LicenseSerialError>(e),
        },
{
    let i = match find_mount_at(mounts, "/") {
        Some(i) => i,
        None => {
            return Err(LicenseSerialError::RootMountNotFound);
        },
    };
    if is_overlay_root(&mounts[i]) {
        let lower = match extract_lower_dir(live) {
            Ok(s) => s,
            Err(e) => {
                return Err(e);
            },
        };
        match find_mount_at(mounts, lower.as_str()) {
            Some(k) => Ok(k),
            None => Err(LicenseSerialError::RootMountNotFound),
        }
    } else {
        Ok(i)
    }
}

} // verus!
