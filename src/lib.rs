//! Spawning a child process inside a configurable set of Linux namespaces.
//!
//! The library holds the decisions of the spawn protocol: which namespaces a
//! context asks for, how the child's stack is sized, what the parent writes to
//! `/proc/<pid>/…`, which mounts the child performs, and in which order every
//! step of the parent/child rendezvous happens. The system calls themselves
//! are made by the caller, which feeds their outcomes back as events.

pub mod flags;
pub mod error;
pub mod namespace;
pub mod stack;
pub mod context;
pub mod child;
pub mod spawn;
pub mod entry;

pub use child::Child;
pub use context::{Context, ContextInner, ContextOuter, Share};
pub use error::{Error, ProcWriteError};
