//! Mount namespaces and the mounts performed inside them.

use vstd::prelude::*;
use vstd::string::*;
use crate::error::Error;
use crate::flags::{
    MS_BIND, MS_DIRSYNC, MS_MANDLOCK, MS_MOVE, MS_NOATIME, MS_NODEV, MS_NODIRATIME, MS_NOEXEC,
    MS_NOSUID, MS_PRIVATE, MS_RDONLY, MS_REC, MS_RELATIME, MS_REMOUNT, MS_SHARED, MS_SILENT,
    MS_SLAVE, MS_STRICTATIME, MS_SYNCHRONOUS, MS_UNBINDABLE,
};

verus! {

/// A new mount namespace with no mount of its own.
///
/// A new mount namespace starts as a copy of the parent's.
#[derive(Debug)]
pub struct EmptyMount {}

impl EmptyMount {
    /// Configure a new mount namespace for creation.
    pub fn new() -> (r: EmptyMount) {
        EmptyMount {}
    }
}

/// A mount performed inside a new mount namespace.
///
/// Mounts made in the child's own mount namespace are invisible to every
/// other namespace, and the child cannot change the mounts of any other.
/// The mount itself is `mount(2)`, made by the child before the user
/// callable runs.
#[derive(Debug)]
pub struct Mount {
    src: Option<String>,
    target: String,
    fstype: Option<String>,
    flags: u64,
    mk_target: bool,
    umount: bool,
    mounted: Option<String>,
}

/// What a [`Mount`] holds.
pub struct MountView {
    /// The source; none for remounts and propagation changes.
    pub source: Option<Seq<char>>,
    /// The mount point.
    pub target: Seq<char>,
    /// The file system type; none where the kernel ignores it.
    pub fstype: Option<Seq<char>>,
    /// The `MS_*` flags.
    pub flags: u64,
    /// Create the mount point and its parents before mounting.
    pub make_target_dir: bool,
    /// Unmount again when the child cleans up.
    pub unmount_on_drop: bool,
    /// The canonical mount point, set while a mount made from this spec stands.
    pub mounted: Option<Seq<char>>,
}

/// The view of an optional string.
pub open spec fn opt_view(o: Option<String>) -> Option<Seq<char>> {
    match o {
        Some(s) => Some(s@),
        None => None,
    }
}

/// A spec as a factory makes it: no modifier set, nothing mounted.
pub open spec fn fresh(
    source: Option<Seq<char>>,
    target: Seq<char>,
    fstype: Option<Seq<char>>,
    flags: u64,
) -> MountView {
    MountView {
        source,
        target,
        fstype,
        flags,
        make_target_dir: false,
        unmount_on_drop: false,
        mounted: None,
    }
}

impl MountView {
    /// The same spec with `flag` merged into its flags.
    pub open spec fn with_flag(self, flag: u64) -> MountView {
        MountView { flags: self.flags | flag, ..self }
    }
}

impl View for Mount {
    type V = MountView;

    closed spec fn view(&self) -> MountView {
        MountView {
            source: opt_view(self.src),
            target: self.target@,
            fstype: opt_view(self.fstype),
            flags: self.flags,
            make_target_dir: self.mk_target,
            unmount_on_drop: self.umount,
            mounted: opt_view(self.mounted),
        }
    }
}

fn copy_opt(o: &Option<String>) -> (r: Option<String>)
    ensures
        r == *o,
{
    match o {
        Some(s) => Some(s.clone()),
        None => None,
    }
}

impl Mount {
    /// Mount the file system `fstype` found at `src` on `target`.
    pub fn new(src: &str, target: &str, fstype: &str) -> (r: Mount)
        ensures
            r@ == fresh(Some(src@), target@, Some(fstype@), 0),
    {
        Mount {
            src: Some(String::from_str(src)),
            target: String::from_str(target),
            fstype: Some(String::from_str(fstype)),
            flags: 0,
            mk_target: false,
            umount: false,
            mounted: None,
        }
    }

    /// Change the flags of the existing mount at `target`.
    pub fn remount(target: &str) -> (r: Mount)
        ensures
            r@ == fresh(None, target@, None, MS_REMOUNT),
    {
        Mount {
            src: None,
            target: String::from_str(target),
            fstype: None,
            flags: MS_REMOUNT,
            mk_target: false,
            umount: false,
            mounted: None,
        }
    }

    /// Bind the directory `src` to the mount point `target`.
    pub fn bind(src: &str, target: &str) -> (r: Mount)
        ensures
            r@ == fresh(Some(src@), target@, None, MS_BIND),
    {
        Mount {
            src: Some(String::from_str(src)),
            target: String::from_str(target),
            fstype: None,
            flags: MS_BIND,
            mk_target: false,
            umount: false,
            mounted: None,
        }
    }

    /// Bind the directory `src`, and every mount in its subtree, to `target`.
    pub fn recursive_bind(src: &str, target: &str) -> (r: Mount)
        ensures
            r@ == fresh(Some(src@), target@, None, MS_BIND | MS_REC),
    {
        Mount {
            src: Some(String::from_str(src)),
            target: String::from_str(target),
            fstype: None,
            flags: MS_BIND | MS_REC,
            mk_target: false,
            umount: false,
            mounted: None,
        }
    }

    /// Make the existing mount at `target` shared: mount and unmount events
    /// below it propagate to its peers.
    pub fn shared(target: &str) -> (r: Mount)
        ensures
            r@ == fresh(None, target@, None, MS_SHARED),
    {
        Mount {
            src: None,
            target: String::from_str(target),
            fstype: None,
            flags: MS_SHARED,
            mk_target: false,
            umount: false,
            mounted: None,
        }
    }

    /// Make the existing mount at `target` private: mount and unmount events
    /// below it do not propagate to its peers.
    pub fn private(target: &str) -> (r: Mount)
        ensures
            r@ == fresh(None, target@, None, MS_PRIVATE),
    {
        Mount {
            src: None,
            target: String::from_str(target),
            fstype: None,
            flags: MS_PRIVATE,
            mk_target: false,
            umount: false,
            mounted: None,
        }
    }

    /// Make the existing mount at `target` a slave: events propagate into it
    /// but never out of it.
    pub fn slave(target: &str) -> (r: Mount)
        ensures
            r@ == fresh(None, target@, None, MS_SLAVE),
    {
        Mount {
            src: None,
            target: String::from_str(target),
            fstype: None,
            flags: MS_SLAVE,
            mk_target: false,
            umount: false,
            mounted: None,
        }
    }

    /// Make the existing mount at `target` private and unbindable: it and
    /// the mounts below it cannot be bound elsewhere.
    pub fn unbindable(target: &str) -> (r: Mount)
        ensures
            r@ == fresh(None, target@, None, MS_UNBINDABLE),
    {
        Mount {
            src: None,
            target: String::from_str(target),
            fstype: None,
            flags: MS_UNBINDABLE,
            mk_target: false,
            umount: false,
            mounted: None,
        }
    }

    /// Move the existing mount at `src` to `target`.
    pub fn relocate(src: &str, target: &str) -> (r: Mount)
        ensures
            r@ == fresh(Some(src@), target@, None, MS_MOVE),
    {
        Mount {
            src: Some(String::from_str(src)),
            target: String::from_str(target),
            fstype: None,
            flags: MS_MOVE,
            mk_target: false,
            umount: false,
            mounted: None,
        }
    }

    fn add_flag(self, flag: u64) -> (r: Mount)
        ensures
            r@ == self@.with_flag(flag),
    {
        Mount { flags: self.flags | flag, ..self }
    }

    /// Add the bind flag to the mount, as when remounting a bind mount.
    pub fn as_bind(self) -> (r: Mount)
        ensures
            r@ == self@.with_flag(MS_BIND),
    {
        self.add_flag(MS_BIND)
    }

    /// Make directory changes on this file system synchronous.
    pub fn synchronous_directories(self) -> (r: Mount)
        ensures
            r@ == self@.with_flag(MS_DIRSYNC),
    {
        self.add_flag(MS_DIRSYNC)
    }

    /// Permit mandatory locking on files of this file system.
    pub fn mandatory_locking(self) -> (r: Mount)
        ensures
            r@ == self@.with_flag(MS_MANDLOCK),
    {
        self.add_flag(MS_MANDLOCK)
    }

    /// Do not update access times for (all types of) files on this mount.
    pub fn no_access_time(self) -> (r: Mount)
        ensures
            r@ == self@.with_flag(MS_NOATIME),
    {
        self.add_flag(MS_NOATIME)
    }

    /// Do not allow access to devices (special files) on this mount.
    pub fn no_devices(self) -> (r: Mount)
        ensures
            r@ == self@.with_flag(MS_NODEV),
    {
        self.add_flag(MS_NODEV)
    }

    /// Do not update access times for directories on this mount.
    pub fn no_directory_access_time(self) -> (r: Mount)
        ensures
            r@ == self@.with_flag(MS_NODIRATIME),
    {
        self.add_flag(MS_NODIRATIME)
    }

    /// Do not allow programs to be executed from this mount.
    pub fn no_execute(self) -> (r: Mount)
        ensures
            r@ == self@.with_flag(MS_NOEXEC),
    {
        self.add_flag(MS_NOEXEC)
    }

    /// Do not honor set-user-ID and set-group-ID bits or file capabilities
    /// when executing programs from this mount.
    pub fn no_setuid(self) -> (r: Mount)
        ensures
            r@ == self@.with_flag(MS_NOSUID),
    {
        self.add_flag(MS_NOSUID)
    }

    /// Mount read-only.
    pub fn read_only(self) -> (r: Mount)
        ensures
            r@ == self@.with_flag(MS_RDONLY),
    {
        self.add_flag(MS_RDONLY)
    }

    /// Update the access time of a file only if it is not newer than its
    /// modification or status change time.
    pub fn relative_access_time(self) -> (r: Mount)
        ensures
            r@ == self@.with_flag(MS_RELATIME),
    {
        self.add_flag(MS_RELATIME)
    }

    /// Suppress the display of certain warning messages in the kernel log.
    pub fn silent(self) -> (r: Mount)
        ensures
            r@ == self@.with_flag(MS_SILENT),
    {
        self.add_flag(MS_SILENT)
    }

    /// Always update the last access time.
    pub fn strict_access_time(self) -> (r: Mount)
        ensures
            r@ == self@.with_flag(MS_STRICTATIME),
    {
        self.add_flag(MS_STRICTATIME)
    }

    /// Make writes on this mount synchronous.
    pub fn synchronous(self) -> (r: Mount)
        ensures
            r@ == self@.with_flag(MS_SYNCHRONOUS),
    {
        self.add_flag(MS_SYNCHRONOUS)
    }

    /// Reserved for lazy access times; the flag is not set, the spec is
    /// returned unchanged.
    pub fn lazy_access_time(self) -> (r: Mount)
        ensures
            r@ == self@,
    {
        self
    }

    /// Create the mount point, and its parents, if it does not exist.
    pub fn make_target_dir(self) -> (r: Mount)
        ensures
            r@ == (MountView { make_target_dir: true, ..self@ }),
    {
        Mount { mk_target: true, ..self }
    }

    /// Unmount the target when the child cleans up.
    pub fn unmount(self) -> (r: Mount)
        ensures
            r@ == (MountView { unmount_on_drop: true, ..self@ }),
    {
        Mount { umount: true, ..self }
    }

    /// Unmount the target when the child cleans up; the same as
    /// [`Mount::unmount`].
    pub fn unmount_on_drop(self) -> (r: Mount)
        ensures
            r@ == (MountView { unmount_on_drop: true, ..self@ }),
    {
        self.unmount()
    }

    /// A copy of the spec, as an error carries it.
    pub fn snapshot(&self) -> (r: Mount)
        ensures
            r@ == self@,
    {
        Mount {
            src: copy_opt(&self.src),
            target: self.target.clone(),
            fstype: copy_opt(&self.fstype),
            flags: self.flags,
            mk_target: self.mk_target,
            umount: self.umount,
            mounted: copy_opt(&self.mounted),
        }
    }
}

/// The `mount(2)` call that performs a spec; the data argument is always null.
#[derive(Debug)]
pub struct MountCall {
    /// The source, or null.
    pub source: Option<String>,
    /// The mount point.
    pub target: String,
    /// The file system type, or null.
    pub fstype: Option<String>,
    /// The `MS_*` flags.
    pub flags: u64,
    /// Create the mount point, and its parents, before the call.
    pub make_target_dir: bool,
}

/// Whether `s` holds a NUL character, which no path given to the kernel can.
pub open spec fn has_nul(s: Seq<char>) -> bool {
    s.contains('\0')
}

/// Whether an optional path holds a NUL character.
pub open spec fn opt_has_nul(s: Option<Seq<char>>) -> bool {
    match s {
        Some(p) => has_nul(p),
        None => false,
    }
}

fn str_has_nul(s: &str) -> (r: bool)
    ensures
        r == has_nul(s@),
{
    let n = s.unicode_len();
    let mut i: usize = 0;
    while i < n
        invariant
            n == s@.len(),
            i <= n,
            forall|j: int| 0 <= j < i ==> s@[j] != '\0',
        decreases n - i,
    {
        if s.get_char(i) == '\0' {
            return true;
        }
        i = i + 1;
    }
    false
}

fn opt_str_has_nul(s: &Option<String>) -> (r: bool)
    ensures
        r == opt_has_nul(opt_view(*s)),
{
    match s {
        Some(p) => str_has_nul(p.as_str()),
        None => false,
    }
}

impl MountCall {
    /// The call, as its parts' views.
    pub open spec fn view_parts(&self) -> (Option<Seq<char>>, Seq<char>, Option<Seq<char>>, u64, bool) {
        (opt_view(self.source), self.target@, opt_view(self.fstype), self.flags, self.make_target_dir)
    }
}

impl MountView {
    /// The call that performs this spec.
    pub open spec fn call(self) -> (Option<Seq<char>>, Seq<char>, Option<Seq<char>>, u64, bool) {
        (self.source, self.target, self.fstype, self.flags, self.make_target_dir)
    }

    /// Whether a path of this spec cannot be handed to the kernel.
    pub open spec fn bad_path(self) -> bool {
        opt_has_nul(self.source) || has_nul(self.target) || opt_has_nul(self.fstype)
    }
}

impl Mount {
    /// The `mount(2)` call that performs this spec.
    ///
    /// A spec mounts at most once: while a mount made from it stands, the
    /// call is refused with a `Mount` error that carries the spec. A path
    /// with a NUL character gives `PathEncoding`.
    pub fn mount_call(&self) -> (r: Result<MountCall, Error>)
        ensures
            self@.mounted is Some ==> (r matches Err(Error::Mount(m)) && m@ == self@),
            self@.mounted is None && self@.bad_path() ==> r == Err::<MountCall, Error>(Error::PathEncoding),
            self@.mounted is None && !self@.bad_path() ==> (r matches Ok(c) && c.view_parts() == self@.call()),
    {
        if self.mounted.is_some() {
            return Err(Error::Mount(self.snapshot()));
        }
        if opt_str_has_nul(&self.src) || str_has_nul(self.target.as_str()) || opt_str_has_nul(&self.fstype) {
            return Err(Error::PathEncoding);
        }
        Ok(MountCall {
            source: copy_opt(&self.src),
            target: self.target.clone(),
            fstype: copy_opt(&self.fstype),
            flags: self.flags,
            make_target_dir: self.mk_target,
        })
    }

    /// Record that the mount succeeded, at the canonical path `canonical`.
    pub fn record_mount(&mut self, canonical: String)
        requires
            old(self)@.mounted is None,
        ensures
            final(self)@ == (MountView { mounted: Some(canonical@), ..old(self)@ }),
    {
        self.mounted = Some(canonical);
    }

    /// The path to unmount when the child cleans up: the canonical mount
    /// point, where the spec asks to be unmounted and a mount of it stands.
    pub fn unmount_target(&self) -> (r: Option<String>)
        ensures
            r is Some <==> self@.unmount_on_drop && self@.mounted is Some,
            r matches Some(p) ==> self@.mounted == Some(p@),
    {
        if self.umount {
            copy_opt(&self.mounted)
        } else {
            None
        }
    }

    /// Record that the mount was released.
    pub fn record_unmount(&mut self)
        ensures
            final(self)@ == (MountView { mounted: None, ..old(self)@ }),
    {
        self.mounted = None;
    }
}

} // verus!
