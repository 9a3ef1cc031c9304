//! The handle of a spawned child.

use vstd::prelude::*;
use crate::context::ContextOuter;
use crate::stack::Stack;

verus! {

/// The child that has been started in a context.
///
/// It owns the parent-side configurators of the context and the child's
/// stack. Exactly one of [`Child::wait`] and [`Child::release`] reaps the
/// child, and the stack is released only once the child has been reaped.
#[derive(Debug)]
pub struct Child {
    pid: u32,
    outer: ContextOuter,
    stack: Stack,
    reaped: bool,
}

/// What the parent must do to let go of a child: reap it where nobody
/// waited for it, then unmap its stack.
#[derive(Debug)]
pub struct Release {
    /// The child to reap, where it was not reaped yet.
    pub reap: Option<u32>,
    /// The first address of the stack to unmap.
    pub start: usize,
    /// The length of the stack to unmap.
    pub size: usize,
}

impl Child {
    /// The child's process id.
    pub closed spec fn pid_spec(&self) -> u32 {
        self.pid
    }

    /// The child's stack.
    pub closed spec fn stack_spec(&self) -> (usize, usize) {
        (self.stack.start_spec(), self.stack.size_spec())
    }

    /// The parent-side configurators that the child carries.
    pub closed spec fn outer_spec(&self) -> Seq<crate::namespace::ExternalConfig> {
        self.outer@
    }

    /// Whether the child has been reaped.
    pub closed spec fn is_reaped(&self) -> bool {
        self.reaped
    }

    /// A handle of a running child that nobody has waited for yet.
    pub fn new(pid: u32, outer: ContextOuter, stack: Stack) -> (r: Child)
        ensures
            r.pid_spec() == pid,
            r.stack_spec() == (stack.start_spec(), stack.size_spec()),
            r.outer_spec() == outer@,
            !r.is_reaped(),
    {
        Child { pid, outer, stack, reaped: false }
    }

    /// Get the process id of the child.
    pub fn pid(&self) -> (r: u32)
        ensures
            r == self.pid_spec(),
    {
        self.pid
    }

    /// Wait for the child to exit: the child to reap, where no wait has
    /// reaped it yet. The child counts as reaped from then on.
    pub fn wait(&mut self) -> (r: Option<u32>)
        ensures
            r == (if old(self).is_reaped() { None } else { Some(old(self).pid_spec()) }),
            final(self).is_reaped(),
            final(self).pid_spec() == old(self).pid_spec(),
            final(self).stack_spec() == old(self).stack_spec(),
            final(self).outer_spec() == old(self).outer_spec(),
    {
        let r = if self.reaped { None } else { Some(self.pid) };
        self.reaped = true;
        r
    }

    /// Let go of the child: reap it where nobody has, then unmap its stack,
    /// the region that was mapped for it.
    pub fn release(self) -> (r: Release)
        ensures
            r.reap == (if self.is_reaped() { None } else { Some(self.pid_spec()) }),
            (r.start, r.size) == self.stack_spec(),
    {
        let reap = if self.reaped { None } else { Some(self.pid) };
        Release { reap, start: self.stack.start(), size: self.stack.size() }
    }
}

} // verus!
