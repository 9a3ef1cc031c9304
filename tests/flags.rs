use isolate::flags::{
    CLONE_NEWCGROUP, CLONE_NEWIPC, CLONE_NEWNET, CLONE_NEWNS, CLONE_NEWPID, CLONE_NEWUSER,
    CLONE_NEWUTS, CLONE_VM, MS_BIND, MS_DIRSYNC, MS_MANDLOCK, MS_MOVE, MS_NOATIME, MS_NODEV,
    MS_NODIRATIME, MS_NOEXEC, MS_NOSUID, MS_PRIVATE, MS_RDONLY, MS_REC, MS_RELATIME, MS_REMOUNT,
    MS_SHARED, MS_SILENT, MS_SLAVE, MS_STRICTATIME, MS_SYNCHRONOUS, MS_UNBINDABLE, SIGCHLD,
};

#[test]
fn clone_flags_match_the_kernel() {
    assert_eq!(CLONE_NEWNS, libc::CLONE_NEWNS as u32);
    assert_eq!(CLONE_NEWCGROUP, libc::CLONE_NEWCGROUP as u32);
    assert_eq!(CLONE_NEWUTS, libc::CLONE_NEWUTS as u32);
    assert_eq!(CLONE_NEWIPC, libc::CLONE_NEWIPC as u32);
    assert_eq!(CLONE_NEWUSER, libc::CLONE_NEWUSER as u32);
    assert_eq!(CLONE_NEWPID, libc::CLONE_NEWPID as u32);
    assert_eq!(CLONE_NEWNET, libc::CLONE_NEWNET as u32);
    assert_eq!(CLONE_VM, libc::CLONE_VM as u32);
    assert_eq!(SIGCHLD, libc::SIGCHLD as u32);
}

#[test]
fn mount_flags_match_the_kernel() {
    assert_eq!(MS_RDONLY, libc::MS_RDONLY as u64);
    assert_eq!(MS_NOSUID, libc::MS_NOSUID as u64);
    assert_eq!(MS_NODEV, libc::MS_NODEV as u64);
    assert_eq!(MS_NOEXEC, libc::MS_NOEXEC as u64);
    assert_eq!(MS_SYNCHRONOUS, libc::MS_SYNCHRONOUS as u64);
    assert_eq!(MS_REMOUNT, libc::MS_REMOUNT as u64);
    assert_eq!(MS_MANDLOCK, libc::MS_MANDLOCK as u64);
    assert_eq!(MS_DIRSYNC, libc::MS_DIRSYNC as u64);
    assert_eq!(MS_NOATIME, libc::MS_NOATIME as u64);
    assert_eq!(MS_NODIRATIME, libc::MS_NODIRATIME as u64);
    assert_eq!(MS_BIND, libc::MS_BIND as u64);
    assert_eq!(MS_MOVE, libc::MS_MOVE as u64);
    assert_eq!(MS_REC, libc::MS_REC as u64);
    assert_eq!(MS_SILENT, libc::MS_SILENT as u64);
    assert_eq!(MS_UNBINDABLE, libc::MS_UNBINDABLE as u64);
    assert_eq!(MS_PRIVATE, libc::MS_PRIVATE as u64);
    assert_eq!(MS_SLAVE, libc::MS_SLAVE as u64);
    assert_eq!(MS_SHARED, libc::MS_SHARED as u64);
    assert_eq!(MS_RELATIME, libc::MS_RELATIME as u64);
    assert_eq!(MS_STRICTATIME, libc::MS_STRICTATIME as u64);
}
