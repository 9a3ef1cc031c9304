//! The errors that the spawn protocol surfaces.

use vstd::prelude::*;
use crate::namespace::mount::Mount;

verus! {

/// How a write to a `/proc/<pid>/…` file failed.
#[derive(Debug)]
pub enum ProcWriteError {
    /// The file could not be opened; carries the system errno.
    Open(i32),
    /// The write itself failed; carries the system errno.
    Write(i32),
    /// The kernel took fewer bytes than were written: it rejected the map.
    Rejected,
}

/// The error kinds of the library.
#[derive(Debug)]
pub enum Error {
    /// The stack could not be mapped; carries the system errno (0 where the
    /// mapping call returned a sentinel address without one).
    StackAllocation(i32),
    /// `clone` failed; carries the system errno.
    Clone(i32),
    /// A mount or unmount failed, or a mount was asked of a spec that is
    /// already mounted; carries a snapshot of the spec.
    Mount(Mount),
    /// A path held an interior NUL or could not be encoded for a system call.
    PathEncoding,
    /// Waiting on the child failed; carries the system errno.
    ChildWait(i32),
    /// Sending the resume signal to the child failed; carries the system errno.
    ChildContinue(i32),
    /// Writing to a `/proc/<pid>/…` file failed.
    ProcWrite(ProcWriteError),
    /// A namespace spec could not prepare the host; carries its description.
    PrepareFailed(String),
}

} // verus!
