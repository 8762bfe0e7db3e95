//! Mount planning: for each granted share, the exact bind mount the build
//! performs, plus the fresh procfs mount and the read-only remount of
//! `/usr` that seals system binaries after the root switch.

use vstd::prelude::*;
use vstd::string::StringExecFns;
use crate::decimal::decimal_chars;
use crate::decimal::decimal_string;
use crate::share::ShareKind;

verus! {

/// The mount flags this system ever uses.
#[derive(Clone, Copy, Debug, PartialEq, Eq, Structural)]
pub struct MountFlags {
    pub bind: bool,
    pub remount: bool,
    pub read_only: bool,
}

/// One mount operation: source path, target path inside the new root,
/// flags, and a filesystem type for non-bind mounts.
pub struct MountSpec {
    pub source: String,
    pub target: String,
    pub flags: MountFlags,
    pub fstype: Option<String>,
}

/// The mathematical value of a `MountSpec`.
#[verifier::ext_equal]
pub struct MountSpecV {
    pub source: Seq<char>,
    pub target: Seq<char>,
    pub flags: MountFlags,
    pub fstype: Option<Seq<char>>,
}

impl View for MountSpec {
    type V = MountSpecV;

    open spec fn view(&self) -> MountSpecV {
        MountSpecV {
            source: self.source@,
            target: self.target@,
            flags: self.flags,
            fstype: match self.fstype {
                Some(t) => Some(t@),
                None => None,
            },
        }
    }
}

/// Flags of a plain read-write bind mount.
pub open spec fn bind_flags() -> MountFlags {
    MountFlags { bind: true, remount: false, read_only: false }
}

/// Flags that remount an existing bind read-only.
pub open spec fn read_only_remount_flags() -> MountFlags {
    MountFlags { bind: true, remount: true, read_only: true }
}

/// Flags of a fresh filesystem mount.
pub open spec fn plain_mount_flags() -> MountFlags {
    MountFlags { bind: false, remount: false, read_only: false }
}

/// The host path a share is served from. Home deliberately narrows to the
/// `Documents` subdirectory; the compositor and audio sockets live in the
/// invoking user's runtime directory.
pub open spec fn share_source_spec(kind: ShareKind, home: Seq<char>, uid: nat) -> Seq<char> {
    match kind {
        ShareKind::Home => home + "/Documents"@,
        ShareKind::Wayland => "/run/user/"@ + decimal_chars(uid) + "/wayland-0"@,
        ShareKind::X11 => "/tmp/.X11-unix"@,
        ShareKind::Sound => "/run/user/"@ + decimal_chars(uid) + "/pipewire-0"@,
        ShareKind::Tools => "/usr/bin/git"@,
    }
}

/// The fixed in-sandbox path a share is bound to.
pub open spec fn share_target_spec(kind: ShareKind) -> Seq<char> {
    match kind {
        ShareKind::Home => "/home/user/Documents"@,
        ShareKind::Wayland => "/run/wayland-0"@,
        ShareKind::X11 => "/tmp/.X11-unix"@,
        ShareKind::Sound => "/run/pipewire-0"@,
        ShareKind::Tools => "/usr/bin/git"@,
    }
}

/// The bind mount a share demands: read-write, no filesystem type.
pub open spec fn share_mount_spec(kind: ShareKind, home: Seq<char>, uid: nat) -> MountSpecV {
    MountSpecV {
        source: share_source_spec(kind, home, uid),
        target: share_target_spec(kind),
        flags: bind_flags(),
        fstype: None,
    }
}

/// Builds the bind mount for one granted share. `home_dir` is the invoking
/// user's home directory, `uid` their host user id.
pub fn share_mount(kind: ShareKind, home_dir: &str, uid: u32) -> (m: MountSpec)
    ensures
        m@ == share_mount_spec(kind, home_dir@, uid as nat),
{
    let flags = MountFlags { bind: true, remount: false, read_only: false };
    match kind {
        ShareKind::Home => MountSpec {
            source: home_dir.to_owned().concat("/Documents"),
            target: "/home/user/Documents".to_owned(),
            flags,
            fstype: None,
        },
        ShareKind::Wayland => MountSpec {
            source: "/run/user/".to_owned().concat(decimal_string(uid).as_str()).concat(
                "/wayland-0",
            ),
            target: "/run/wayland-0".to_owned(),
            flags,
            fstype: None,
        },
        ShareKind::X11 => MountSpec {
            source: "/tmp/.X11-unix".to_owned(),
            target: "/tmp/.X11-unix".to_owned(),
            flags,
            fstype: None,
        },
        ShareKind::Sound => MountSpec {
            source: "/run/user/".to_owned().concat(decimal_string(uid).as_str()).concat(
                "/pipewire-0",
            ),
            target: "/run/pipewire-0".to_owned(),
            flags,
            fstype: None,
        },
        ShareKind::Tools => MountSpec {
            source: "/usr/bin/git".to_owned(),
            target: "/usr/bin/git".to_owned(),
            flags,
            fstype: None,
        },
    }
}

/// The fresh procfs mount the build performs before any share bind.
pub open spec fn proc_mount_spec() -> MountSpecV {
    MountSpecV {
        source: "proc"@,
        target: "/proc"@,
        flags: plain_mount_flags(),
        fstype: Some("proc"@),
    }
}

/// Builds the procfs mount.
pub fn proc_mount() -> (m: MountSpec)
    ensures
        m@ == proc_mount_spec(),
{
    MountSpec {
        source: "proc".to_owned(),
        target: "/proc".to_owned(),
        flags: MountFlags { bind: false, remount: false, read_only: false },
        fstype: Some("proc".to_owned()),
    }
}

/// The read-only bind remount of `/usr`, applied after the root switch so
/// system binaries cannot be modified from inside the sandbox.
pub open spec fn usr_remount_spec() -> MountSpecV {
    MountSpecV {
        source: "/usr"@,
        target: "/usr"@,
        flags: read_only_remount_flags(),
        fstype: None,
    }
}

/// Builds the read-only remount of `/usr`.
pub fn usr_remount() -> (m: MountSpec)
    ensures
        m@ == usr_remount_spec(),
{
    MountSpec {
        source: "/usr".to_owned(),
        target: "/usr".to_owned(),
        flags: MountFlags { bind: true, remount: true, read_only: true },
        fstype: None,
    }
}

} // verus!
