//! Kernel flag values used by the library.
//!
//! The values are those of the Linux ABI (`<sched.h>`, `<signal.h>` and
//! `<sys/mount.h>`).

use vstd::prelude::*;

verus! {

/// Create the child in a new mount namespace.
pub const CLONE_NEWNS: u32 = 0x0002_0000;

/// Create the child in a new cgroup namespace.
pub const CLONE_NEWCGROUP: u32 = 0x0200_0000;

/// Create the child in a new UTS namespace.
pub const CLONE_NEWUTS: u32 = 0x0400_0000;

/// Create the child in a new IPC namespace.
pub const CLONE_NEWIPC: u32 = 0x0800_0000;

/// Create the child in a new user namespace.
pub const CLONE_NEWUSER: u32 = 0x1000_0000;

/// Create the child in a new pid namespace.
pub const CLONE_NEWPID: u32 = 0x2000_0000;

/// Create the child in a new network namespace.
pub const CLONE_NEWNET: u32 = 0x4000_0000;

/// Run the child in the address space of the parent.
pub const CLONE_VM: u32 = 0x0000_0100;

/// Signal sent to the parent when the child terminates.
pub const SIGCHLD: u32 = 17;

pub const MS_RDONLY: u64 = 1;

pub const MS_NOSUID: u64 = 2;

pub const MS_NODEV: u64 = 4;

pub const MS_NOEXEC: u64 = 8;

pub const MS_SYNCHRONOUS: u64 = 16;

pub const MS_REMOUNT: u64 = 32;

pub const MS_MANDLOCK: u64 = 64;

pub const MS_DIRSYNC: u64 = 128;

pub const MS_NOATIME: u64 = 1024;

pub const MS_NODIRATIME: u64 = 2048;

pub const MS_BIND: u64 = 4096;

pub const MS_MOVE: u64 = 8192;

pub const MS_REC: u64 = 16384;

pub const MS_SILENT: u64 = 32768;

pub const MS_UNBINDABLE: u64 = 0x2_0000;

pub const MS_PRIVATE: u64 = 0x4_0000;

pub const MS_SLAVE: u64 = 0x8_0000;

pub const MS_SHARED: u64 = 0x10_0000;

pub const MS_RELATIME: u64 = 0x20_0000;

pub const MS_STRICTATIME: u64 = 0x100_0000;

/// The clone bits that request a new namespace.
pub open spec fn is_namespace_bit(f: u32) -> bool {
    f == CLONE_NEWNS || f == CLONE_NEWCGROUP || f == CLONE_NEWUTS || f == CLONE_NEWIPC
        || f == CLONE_NEWUSER || f == CLONE_NEWPID || f == CLONE_NEWNET
}

} // verus!
