//! Namespace specs.
//!
//! Each spec names at most one kernel namespace (its clone bit) and splits,
//! before the clone, into a configurator that runs in the parent and one that
//! runs inside the child.

use vstd::prelude::*;
use crate::error::Error;
use crate::flags::{
    is_namespace_bit, CLONE_NEWCGROUP, CLONE_NEWIPC, CLONE_NEWNET, CLONE_NEWNS, CLONE_NEWPID,
    CLONE_NEWUSER, CLONE_NEWUTS,
};

pub mod mount;
pub mod user;

pub use self::mount::{EmptyMount, Mount};
pub use self::user::{ProcWrite, ProcWriteView, User};

verus! {

/// A control group namespace.
#[derive(Debug)]
pub struct ControlGroup {}

/// An inter-process communication namespace (System V IPC, POSIX queues).
#[derive(Debug)]
pub struct Ipc {}

/// A network namespace: a network stack of its own.
#[derive(Debug)]
pub struct Network {}

/// A process id namespace: the child is process 1 inside it.
#[derive(Debug)]
pub struct Pid {}

/// A UTS namespace: host and domain name of its own.
#[derive(Debug)]
pub struct Uts {}

impl ControlGroup {
    /// Configure a new control group namespace for creation.
    pub fn new() -> (r: ControlGroup) {
        ControlGroup {}
    }
}

impl Ipc {
    /// Configure a new IPC namespace for creation.
    pub fn new() -> (r: Ipc) {
        Ipc {}
    }
}

impl Network {
    /// Configure a new network namespace for creation.
    pub fn new() -> (r: Network) {
        Network {}
    }
}

impl Pid {
    /// Configure a new pid namespace for creation.
    pub fn new() -> (r: Pid) {
        Pid {}
    }
}

impl Uts {
    /// Configure a new UTS namespace for creation.
    pub fn new() -> (r: Uts) {
        Uts {}
    }
}

/// One namespace spec of a context.
#[derive(Debug)]
pub enum Spec {
    ControlGroup(ControlGroup),
    Ipc(Ipc),
    Network(Network),
    Pid(Pid),
    Uts(Uts),
    EmptyMount(EmptyMount),
    User(User),
    Mount(Mount),
}

/// The part of a spec that runs in the parent, once the child's pid is known.
#[derive(Debug)]
pub enum ExternalConfig {
    /// Nothing to do outside the child.
    Empty,
    /// Write the identity maps of a user namespace.
    User(User),
}

/// The part of a spec that runs inside the child, before the user callable.
#[derive(Debug)]
pub enum InternalConfig {
    /// Nothing to do inside the child.
    Empty,
    /// Perform a mount, and undo it on the way out if asked.
    Mount(Mount),
}

impl Spec {
    /// The clone bit that this spec contributes, if any.
    pub open spec fn bit(&self) -> Option<u32> {
        match self {
            Spec::ControlGroup(_) => Some(CLONE_NEWCGROUP),
            Spec::Ipc(_) => Some(CLONE_NEWIPC),
            Spec::Network(_) => Some(CLONE_NEWNET),
            Spec::Pid(_) => Some(CLONE_NEWPID),
            Spec::Uts(_) => Some(CLONE_NEWUTS),
            Spec::EmptyMount(_) => Some(CLONE_NEWNS),
            Spec::User(_) => Some(CLONE_NEWUSER),
            Spec::Mount(_) => Some(CLONE_NEWNS),
        }
    }

    /// The parent-side configurator that splitting this spec yields.
    pub open spec fn external_of(self) -> ExternalConfig {
        match self {
            Spec::User(u) => ExternalConfig::User(u),
            _ => ExternalConfig::Empty,
        }
    }

    /// The child-side configurator that splitting this spec yields.
    pub open spec fn internal_of(self) -> InternalConfig {
        match self {
            Spec::Mount(m) => InternalConfig::Mount(m),
            _ => InternalConfig::Empty,
        }
    }

    /// Get the flag needed for `clone` to create this namespace.
    pub fn clone_flag(&self) -> (r: Option<u32>)
        ensures
            r == self.bit(),
            r matches Some(f) ==> is_namespace_bit(f),
    {
        match self {
            Spec::ControlGroup(_) => Some(CLONE_NEWCGROUP),
            Spec::Ipc(_) => Some(CLONE_NEWIPC),
            Spec::Network(_) => Some(CLONE_NEWNET),
            Spec::Pid(_) => Some(CLONE_NEWPID),
            Spec::Uts(_) => Some(CLONE_NEWUTS),
            Spec::EmptyMount(_) => Some(CLONE_NEWNS),
            Spec::User(_) => Some(CLONE_NEWUSER),
            Spec::Mount(_) => Some(CLONE_NEWNS),
        }
    }

    /// Prepare the host before the clone.
    ///
    /// None of the namespaces of this library needs the host changed before
    /// the clone, so this always succeeds; it is idempotent.
    pub fn prepare(&self) -> (r: Result<(), Error>)
        ensures
            r is Ok,
    {
        Ok(())
    }

    /// Split the spec into its parent-side and child-side configurators.
    pub fn split(self) -> (r: (ExternalConfig, InternalConfig))
        ensures
            r.0 == self.external_of(),
            r.1 == self.internal_of(),
    {
        match self {
            Spec::User(u) => (ExternalConfig::User(u), InternalConfig::Empty),
            Spec::Mount(m) => (ExternalConfig::Empty, InternalConfig::Mount(m)),
            _ => (ExternalConfig::Empty, InternalConfig::Empty),
        }
    }
}

/// A value that can stand in a context as a namespace spec.
pub trait Namespace: Sized {
    /// The spec that this value becomes.
    spec fn spec_of(self) -> Spec;

    /// Turn the value into the spec that a context holds.
    fn into_spec(self) -> (r: Spec)
        ensures
            r == self.spec_of(),
    ;
}

impl Namespace for Spec {
    open spec fn spec_of(self) -> Spec {
        self
    }

    fn into_spec(self) -> (r: Spec) {
        self
    }
}

impl Namespace for ControlGroup {
    open spec fn spec_of(self) -> Spec {
        Spec::ControlGroup(self)
    }

    fn into_spec(self) -> (r: Spec) {
        Spec::ControlGroup(self)
    }
}

impl Namespace for Ipc {
    open spec fn spec_of(self) -> Spec {
        Spec::Ipc(self)
    }

    fn into_spec(self) -> (r: Spec) {
        Spec::Ipc(self)
    }
}

impl Namespace for Network {
    open spec fn spec_of(self) -> Spec {
        Spec::Network(self)
    }

    fn into_spec(self) -> (r: Spec) {
        Spec::Network(self)
    }
}

impl Namespace for Pid {
    open spec fn spec_of(self) -> Spec {
        Spec::Pid(self)
    }

    fn into_spec(self) -> (r: Spec) {
        Spec::Pid(self)
    }
}

impl Namespace for Uts {
    open spec fn spec_of(self) -> Spec {
        Spec::Uts(self)
    }

    fn into_spec(self) -> (r: Spec) {
        Spec::Uts(self)
    }
}

impl Namespace for EmptyMount {
    open spec fn spec_of(self) -> Spec {
        Spec::EmptyMount(self)
    }

    fn into_spec(self) -> (r: Spec) {
        Spec::EmptyMount(self)
    }
}

impl Namespace for User {
    open spec fn spec_of(self) -> Spec {
        Spec::User(self)
    }

    fn into_spec(self) -> (r: Spec) {
        Spec::User(self)
    }
}

impl Namespace for Mount {
    open spec fn spec_of(self) -> Spec {
        Spec::Mount(self)
    }

    fn into_spec(self) -> (r: Spec) {
        Spec::Mount(self)
    }
}

impl ExternalConfig {
    /// The `/proc` writes that configure child `pid`, in order, when the
    /// parent runs as `uid` and `gid`.
    pub open spec fn writes_spec(self, pid: nat, uid: nat, gid: nat) -> Seq<ProcWriteView> {
        match self {
            ExternalConfig::Empty => Seq::empty(),
            ExternalConfig::User(u) => u.writes_spec(pid, uid, gid),
        }
    }

    /// The `/proc` writes that configure child `pid`, in order, when the
    /// parent runs as `uid` and `gid`.
    pub fn proc_writes(&self, pid: u32, uid: u32, gid: u32) -> (r: Vec<ProcWrite>)
        ensures
            r@.map_values(|w: ProcWrite| w@) == self.writes_spec(pid as nat, uid as nat, gid as nat),
    {
        match self {
            ExternalConfig::Empty => {
                let r: Vec<ProcWrite> = Vec::new();
                assert(r@.map_values(|w: ProcWrite| w@) =~= Seq::<ProcWriteView>::empty());
                r
            },
            ExternalConfig::User(u) => u.proc_writes(pid, uid, gid),
        }
    }
}

} // verus!
