//! The parent's side of a spawn, as a state machine.
//!
//! The caller performs each action that [`Spawner::next`] returns (a system
//! call, a write under `/proc`) and hands its outcome back as the next event.
//! The machine decides the order: every spec is prepared, the stack is mapped,
//! the child is cloned with the context's flags, the parent-side
//! configuration is written while the child is stopped, and only then is the
//! child resumed. After the clone, a failure kills and reaps the child and
//! unmaps its stack before the error is returned.

use vstd::prelude::*;
use crate::child::Child;
use crate::context::{clone_flags_of, outer_writes, Context, ContextInner, ContextOuter, Share};
use crate::error::{Error, ProcWriteError};
use crate::namespace::{ExternalConfig, ProcWrite, ProcWriteView, Spec};
use crate::stack::{round_to_pages, stack_len, Stack};

verus! {

/// A step that the parent takes, as the history of a spawn records it.
pub enum SpawnStep {
    Prepare(nat),
    MapStack(nat, Share),
    Clone(u32),
    Write(ProcWriteView),
    WaitStopped(u32),
    Continue(u32),
    Kill(u32),
    Reap(u32),
    Unmap(usize, usize),
    Spawned(u32),
    Failed(Error),
}

/// What the parent does next.
#[derive(Debug)]
pub enum SpawnAction {
    /// Run the host preparation of spec `i` ([`Spawner::prepare_spec`]).
    Prepare(usize),
    /// Map an anonymous read-write stack of `size` bytes, shared with the
    /// parent where `shared` holds, else private.
    MapStack { size: usize, shared: bool },
    /// Clone the child onto the stack with these flags; the child runs the
    /// child-side configurators before the user callable.
    Clone { flags: u32, inner: ContextInner },
    /// Perform a write under `/proc/<pid>/`.
    WriteProc(ProcWrite),
    /// Wait until the child has stopped itself.
    WaitStopped(u32),
    /// Send the child the continue signal.
    Continue(u32),
    /// Kill the stopped child, and send it the continue signal so that the
    /// kill lands.
    Kill(u32),
    /// Wait for the child to exit.
    Reap(u32),
    /// Unmap the child's stack.
    UnmapStack { start: usize, size: usize },
    /// The child runs; here is its handle.
    Spawned(Child),
    /// The spawn failed with this error.
    Failed(Error),
}

/// The outcome of the last action.
#[derive(Debug)]
pub enum SpawnEvent {
    /// What `Prepare` gave.
    Prepared(Result<(), Error>),
    /// The address of the mapped stack, or the errno of the failure.
    StackMapped(Result<usize, i32>),
    /// The child's pid, or the errno of the failure.
    Cloned(Result<u32, i32>),
    /// What the write under `/proc` gave.
    Written(Result<(), ProcWriteError>),
    /// The child has stopped, or the errno of the failed wait.
    Stopped(Result<(), i32>),
    /// The child was resumed, or the errno of the failure.
    Continued(Result<(), i32>),
    /// The child was killed (or had exited already).
    Killed,
    /// The child was reaped (or could not be).
    Reaped,
    /// The stack was unmapped.
    Unmapped,
}

impl SpawnAction {
    /// The step that this action is.
    pub open spec fn step(&self) -> SpawnStep {
        match self {
            SpawnAction::Prepare(i) => SpawnStep::Prepare(*i as nat),
            SpawnAction::MapStack { size, shared } => SpawnStep::MapStack(
                *size as nat,
                if *shared { Share::Shared } else { Share::Private },
            ),
            SpawnAction::Clone { flags, inner } => SpawnStep::Clone(*flags),
            SpawnAction::WriteProc(w) => SpawnStep::Write(w@),
            SpawnAction::WaitStopped(p) => SpawnStep::WaitStopped(*p),
            SpawnAction::Continue(p) => SpawnStep::Continue(*p),
            SpawnAction::Kill(p) => SpawnStep::Kill(*p),
            SpawnAction::Reap(p) => SpawnStep::Reap(*p),
            SpawnAction::UnmapStack { start, size } => SpawnStep::Unmap(*start, *size),
            SpawnAction::Spawned(c) => SpawnStep::Spawned(c.pid_spec()),
            SpawnAction::Failed(e) => SpawnStep::Failed(*e),
        }
    }
}

/// Where the parent stands; each phase but `Init` and `Done` awaits the
/// outcome of the action that led to it.
enum SpawnPhase {
    Init,
    Preparing(usize),
    Mapping,
    Cloning(Stack),
    Writing(u32, Stack),
    WaitingStop(u32, Stack),
    Continuing(u32, Stack),
    Killing(u32, Stack, Error),
    Reaping(u32, Stack, Error),
    Unmapping(Error),
    Done,
}

/// `Prepare(0)`, …, `Prepare(k - 1)`.
pub open spec fn prepares(k: nat) -> Seq<SpawnStep> {
    Seq::new(k, |i: int| SpawnStep::Prepare(i as nat))
}

/// The writes as steps.
pub open spec fn write_steps(ws: Seq<ProcWriteView>) -> Seq<SpawnStep> {
    ws.map_values(|w: ProcWriteView| SpawnStep::Write(w))
}

/// The parent-side spawn machine.
pub struct Spawner {
    phase: SpawnPhase,
    ctx: Context,
    page: usize,
    uid: u32,
    gid: u32,
    len: usize,
    outer: Option<ContextOuter>,
    writes: Vec<ProcWrite>,
    specs: Ghost<Seq<Spec>>,
    stack_size: Ghost<usize>,
    share: Ghost<Share>,
    mapped_start: Ghost<usize>,
    cut: Ghost<nat>,
    written: Ghost<nat>,
    child_pid: Ghost<u32>,
    pending: Ghost<Error>,
    history: Ghost<Seq<SpawnStep>>,
}

impl Spawner {
    /// The specs of the context being spawned.
    pub closed spec fn specs(&self) -> Seq<Spec> {
        self.specs@
    }

    /// The steps taken so far, oldest first.
    pub closed spec fn history(&self) -> Seq<SpawnStep> {
        self.history@
    }

    /// The length of the child's stack.
    pub closed spec fn stack_len(&self) -> nat {
        stack_len(self.stack_size@ as nat, self.page as nat)
    }

    /// The address-space sharing mode of the context.
    pub closed spec fn share(&self) -> Share {
        self.share@
    }

    /// The first address of the stack, once it is mapped.
    pub closed spec fn mapped_start(&self) -> usize {
        self.mapped_start@
    }

    /// The parent-side configurators of the context.
    pub open spec fn outer_configs(&self) -> Seq<ExternalConfig> {
        self.specs().map_values(|s: Spec| s.external_of())
    }

    /// The child's pid, once it is cloned.
    pub closed spec fn child_pid(&self) -> u32 {
        self.child_pid@
    }

    /// The error that a spawn recovering from a failed step ends with.
    pub closed spec fn pending(&self) -> Error {
        self.pending@
    }

    /// The uid of the parent.
    pub closed spec fn uid(&self) -> u32 {
        self.uid
    }

    /// The gid of the parent.
    pub closed spec fn gid(&self) -> u32 {
        self.gid
    }

    /// The writes under `/proc` that configure child `pid`.
    pub open spec fn planned_writes(&self, pid: u32) -> Seq<ProcWriteView> {
        outer_writes(self.outer_configs(), pid as nat, self.uid() as nat, self.gid() as nat)
    }

    /// The steps up to the clone: every spec prepared in insertion order,
    /// the stack mapped, the child cloned with the context's flags.
    pub open spec fn pre_clone(&self) -> Seq<SpawnStep> {
        prepares(self.specs().len()) + seq![
            SpawnStep::MapStack(self.stack_len(), self.share()),
            SpawnStep::Clone(clone_flags_of(self.specs(), self.share())),
        ]
    }

    /// The steps of a spawn that succeeds with child `pid`.
    pub open spec fn happy(&self, pid: u32) -> Seq<SpawnStep> {
        self.pre_clone() + write_steps(self.planned_writes(pid)) + seq![
            SpawnStep::WaitStopped(pid),
            SpawnStep::Continue(pid),
            SpawnStep::Spawned(pid),
        ]
    }

    /// Whether the stack was unmapped already.
    pub open spec fn unmapped(&self) -> bool {
        exists|i: int| 0 <= i < self.history().len() && #[trigger] self.history()[i] is Unmap
    }

    closed spec fn ctx_intact(&self) -> bool {
        self.ctx@.specs == self.specs@ && self.ctx@.stack_size == self.stack_size@
            && self.ctx@.shared == self.share@
    }

    closed spec fn stack_ok(&self, st: Stack) -> bool {
        st.start_spec() == self.mapped_start@ && st.size_spec() == self.len
            && self.len == self.stack_len()
    }

    closed spec fn split_ok(&self) -> bool {
        self.outer matches Some(o) && o@ == self.outer_configs()
    }

    /// The invariant of a machine in `phase`: the history is the one that
    /// the phase stands for.
    closed spec fn wf_at(&self, phase: SpawnPhase) -> bool {
        &&& self.page > 0
        &&& match phase {
            SpawnPhase::Init => self.ctx_intact() && self.history@ == Seq::<SpawnStep>::empty(),
            SpawnPhase::Preparing(i) => self.ctx_intact() && i < self.specs@.len()
                && self.history@ == prepares((i + 1) as nat)
                && self.history@.last() == SpawnStep::Prepare(i as nat),
            SpawnPhase::Mapping => self.ctx_intact() && self.len == self.stack_len()
                && self.history@.last() is MapStack
                && self.history@ == prepares(self.specs@.len()).push(
                SpawnStep::MapStack(self.stack_len(), self.share@),
            ),
            SpawnPhase::Cloning(st) => self.stack_ok(st) && self.split_ok()
                && self.history@ == self.pre_clone() && self.history@.last() is Clone,
            SpawnPhase::Writing(pid, st) => self.stack_ok(st) && self.split_ok() && self.child_pid@ == pid
                && self.history@.len() == self.pre_clone().len() + self.written@ + 1
                && self.history@.last() is Write
                && self.written@ < self.planned_writes(pid).len()
                && self.writes@.map_values(|w: ProcWrite| w@) == self.planned_writes(pid).skip(self.written@ as int + 1)
                && self.history@ == self.pre_clone() + write_steps(self.planned_writes(pid).take(self.written@ as int + 1)),
            SpawnPhase::WaitingStop(pid, st) => self.stack_ok(st) && self.split_ok() && self.child_pid@ == pid
                && self.history@.len() > 0 && self.history@.last() == SpawnStep::WaitStopped(pid)
                && self.history@ == self.happy(pid).take((self.pre_clone().len() + self.planned_writes(pid).len() + 1) as int),
            SpawnPhase::Continuing(pid, st) => self.stack_ok(st) && self.split_ok() && self.child_pid@ == pid
                && self.history@.len() > 0 && self.history@.last() == SpawnStep::Continue(pid)
                && self.history@ == self.happy(pid).take((self.pre_clone().len() + self.planned_writes(pid).len() + 2) as int),
            SpawnPhase::Killing(pid, st, e) => self.stack_ok(st) && self.child_pid@ == pid && self.pending@ == e
                && self.pre_clone().len() < self.cut@
                < self.happy(pid).len() && self.history@ == self.happy(pid).take(self.cut@ as int).push(SpawnStep::Kill(pid)),
            SpawnPhase::Reaping(pid, st, e) => self.stack_ok(st) && self.child_pid@ == pid && self.pending@ == e
                && self.pre_clone().len() < self.cut@
                < self.happy(pid).len() && self.history@ == self.happy(pid).take(self.cut@ as int).push(
                SpawnStep::Kill(pid)).push(SpawnStep::Reap(pid)),
            SpawnPhase::Unmapping(e) => self.len == self.stack_len() && self.pending@ == e && self.history@.len() > self.pre_clone().len()
                && self.history@.last() == SpawnStep::Unmap(self.mapped_start@, self.len)
                && !(exists|i: int| 0 <= i < self.history@.len() - 1 && #[trigger] self.history@[i] is Unmap)
                && self.history@.take(self.pre_clone().len() as int) == self.pre_clone(),
            SpawnPhase::Done => self.history@.len() > 0 && (self.history@.last() is Spawned
                || self.history@.last() is Failed),
        }
    }

    /// The machine's invariant.
    pub closed spec fn wf(&self) -> bool {
        self.wf_at(self.phase)
    }

    /// Whether `ev` is the outcome of the action that the machine awaits:
    /// the outcome of its last step, where that step awaits one.
    pub open spec fn awaits(&self, ev: SpawnEvent) -> bool {
        self.history().len() > 0 && match self.history().last() {
            SpawnStep::Prepare(_) => ev is Prepared,
            SpawnStep::MapStack(..) => ev is StackMapped,
            SpawnStep::Clone(_) => ev is Cloned,
            SpawnStep::Write(_) => ev is Written,
            SpawnStep::WaitStopped(_) => ev is Stopped,
            SpawnStep::Continue(_) => ev is Continued,
            SpawnStep::Kill(_) => ev is Killed,
            SpawnStep::Reap(_) => ev is Reaped,
            SpawnStep::Unmap(..) => ev is Unmapped,
            _ => false,
        }
    }

    /// Whether the machine has not taken its first step yet.
    pub open spec fn is_fresh(&self) -> bool {
        self.history().len() == 0
    }

    /// Whether spec `i` is the one being prepared.
    pub open spec fn preparing(&self, i: usize) -> bool {
        self.history().len() > 0 && self.history().last() == SpawnStep::Prepare(i as nat)
    }

    /// The step after every spec is prepared: map the stack, unless no
    /// mapping can be that long.
    pub open spec fn after_prepares(&self) -> SpawnStep {
        if self.stack_len() <= crate::stack::max_mapping() {
            SpawnStep::MapStack(self.stack_len(), self.share())
        } else {
            SpawnStep::Failed(Error::StackAllocation(crate::stack::ENOMEM))
        }
    }

    /// The first step of a spawn.
    pub open spec fn first_step(&self) -> SpawnStep {
        if self.specs().len() > 0 {
            SpawnStep::Prepare(0)
        } else {
            self.after_prepares()
        }
    }

    /// The step after the `k`-th write of child `pid` is due: that write,
    /// or, once every write is done, the wait for the child to stop.
    pub open spec fn write_or_wait(&self, pid: u32, k: int) -> SpawnStep {
        if k < self.planned_writes(pid).len() {
            SpawnStep::Write(self.planned_writes(pid)[k])
        } else {
            SpawnStep::WaitStopped(pid)
        }
    }

    /// The step that follows the outcome `ev` of the last step.
    pub open spec fn next_step(&self, ev: SpawnEvent) -> SpawnStep {
        match ev {
            SpawnEvent::Prepared(Ok(())) => {
                let i = self.history().last()->Prepare_0;
                if i + 1 < self.specs().len() {
                    SpawnStep::Prepare(i + 1)
                } else {
                    self.after_prepares()
                }
            },
            SpawnEvent::Prepared(Err(e)) => SpawnStep::Failed(e),
            SpawnEvent::StackMapped(Ok(a)) => if a == 0 || a > isize::MAX {
                SpawnStep::Failed(Error::StackAllocation(0))
            } else {
                SpawnStep::Clone(clone_flags_of(self.specs(), self.share()))
            },
            SpawnEvent::StackMapped(Err(n)) => SpawnStep::Failed(Error::StackAllocation(n)),
            SpawnEvent::Cloned(Ok(pid)) => self.write_or_wait(pid, 0),
            SpawnEvent::Cloned(Err(_)) => SpawnStep::Unmap(self.mapped_start(), self.stack_len() as usize),
            SpawnEvent::Written(Ok(())) => self.write_or_wait(
                self.child_pid(),
                self.history().len() - self.pre_clone().len(),
            ),
            SpawnEvent::Written(Err(_)) => SpawnStep::Kill(self.child_pid()),
            SpawnEvent::Stopped(Ok(())) => SpawnStep::Continue(self.child_pid()),
            SpawnEvent::Stopped(Err(_)) => SpawnStep::Kill(self.child_pid()),
            SpawnEvent::Continued(Ok(())) => SpawnStep::Spawned(self.child_pid()),
            SpawnEvent::Continued(Err(_)) => SpawnStep::Kill(self.child_pid()),
            SpawnEvent::Killed => SpawnStep::Reap(self.child_pid()),
            SpawnEvent::Reaped => SpawnStep::Unmap(self.mapped_start(), self.stack_len() as usize),
            SpawnEvent::Unmapped => SpawnStep::Failed(self.pending()),
        }
    }

    /// The error that a failed step after the clone leaves pending.
    pub open spec fn error_of(ev: SpawnEvent) -> Option<Error> {
        match ev {
            SpawnEvent::Cloned(Err(n)) => Some(Error::Clone(n)),
            SpawnEvent::Written(Err(e)) => Some(Error::ProcWrite(e)),
            SpawnEvent::Stopped(Err(n)) => Some(Error::ChildWait(n)),
            SpawnEvent::Continued(Err(n)) => Some(Error::ChildContinue(n)),
            _ => None,
        }
    }

    /// A machine that spawns a child of `ctx`, on pages of `page` bytes,
    /// from a parent that runs as `uid` and `gid`.
    pub fn new(ctx: Context, page: usize, uid: u32, gid: u32) -> (r: Spawner)
        requires
            page > 0,
        ensures
            r.wf(),
            r.is_fresh(),
            r.specs() == ctx@.specs,
            r.share() == ctx@.shared,
            r.stack_len() == stack_len(ctx@.stack_size as nat, page as nat),
            r.uid() == uid,
            r.gid() == gid,
            r.history() == Seq::<SpawnStep>::empty(),
    {
        let ghost specs = ctx@.specs;
        let ghost stack_size = ctx@.stack_size;
        let ghost share = ctx@.shared;
        Spawner {
            phase: SpawnPhase::Init,
            ctx,
            page,
            uid,
            gid,
            len: 0,
            outer: None,
            writes: Vec::new(),
            specs: Ghost(specs),
            stack_size: Ghost(stack_size),
            share: Ghost(share),
            mapped_start: Ghost(0),
            cut: Ghost(0),
            written: Ghost(0),
            child_pid: Ghost(0),
            pending: Ghost(Error::PathEncoding),
            history: Ghost(Seq::empty()),
        }
    }

    /// Run the host preparation of spec `i`, as a `Prepare(i)` action asks.
    pub fn prepare_spec(&self, i: usize) -> (r: Result<(), Error>)
        requires
            self.wf(),
            self.preparing(i),
        ensures
            r is Ok,
    {
        self.ctx.prepare_spec(i)
    }


    fn begin_mapping(&mut self) -> (r: SpawnAction)
        requires
            old(self).page > 0,
            old(self).ctx_intact(),
            old(self).history@ == prepares(old(self).specs@.len()),
        ensures
            final(self).wf(),
            final(self).history@ == old(self).history@.push(r.step()),
            final(self).specs@ == old(self).specs@,
            final(self).share@ == old(self).share@,
            final(self).stack_size@ == old(self).stack_size@,
            final(self).page == old(self).page,
            final(self).uid == old(self).uid,
            final(self).gid == old(self).gid,
            final(self).mapped_start@ == old(self).mapped_start@,
            final(self).child_pid@ == old(self).child_pid@,
            final(self).pending@ == old(self).pending@,
            r.step() == old(self).after_prepares(),
    {
        let share = self.ctx.share();
        match round_to_pages(self.ctx.requested_stack_size(), self.page) {
            Ok(len) => {
                self.len = len;
                self.phase = SpawnPhase::Mapping;
                let a = SpawnAction::MapStack { size: len, shared: share == Share::Shared };
                proof {
                    self.history@ = self.history@.push(a.step());
                }
                a
            },
            Err(e) => {
                self.phase = SpawnPhase::Done;
                let a = SpawnAction::Failed(e);
                proof {
                    self.history@ = self.history@.push(a.step());
                }
                a
            },
        }
    }

    /// The first action of a spawn: prepare the first spec, or, with no
    /// spec, map the stack.
    pub fn start(&mut self) -> (r: SpawnAction)
        requires
            old(self).wf(),
            old(self).is_fresh(),
        ensures
            final(self).wf(),
            final(self).history() == old(self).history().push(r.step()),
            final(self).specs() == old(self).specs(),
            final(self).share() == old(self).share(),
            final(self).stack_len() == old(self).stack_len(),
            final(self).uid() == old(self).uid(),
            final(self).gid() == old(self).gid(),
            r.step() == old(self).first_step(),
    {
        if self.ctx.len() > 0 {
            self.phase = SpawnPhase::Preparing(0);
            let a = SpawnAction::Prepare(0);
            proof {
                self.history@ = self.history@.push(a.step());
                assert(self.history@ =~= prepares(1));
            }
            a
        } else {
            proof {
                assert(self.history@ =~= prepares(0));
            }
            self.begin_mapping()
        }
    }

    /// What every step of the machine keeps: the specs, the sharing mode and
    /// the stack length stay, the history grows by the step taken, and:
    pub open spec fn lawful(old: Spawner, new: Spawner, ev: SpawnEvent, r: SpawnAction) -> bool {
        // The action taken is the one that the outcome of the last step
        // calls for.
        &&& r.step() == old.next_step(ev)
        &&& new.history() == old.history().push(r.step())
        &&& new.specs() == old.specs()
        &&& new.share() == old.share()
        &&& new.stack_len() == old.stack_len()
        &&& new.uid() == old.uid() && new.gid() == old.gid()
        &&& (ev matches SpawnEvent::StackMapped(Ok(a)) ==> new.mapped_start() == a)
        &&& (!(ev is StackMapped) ==> new.mapped_start() == old.mapped_start())
        &&& (ev matches SpawnEvent::Cloned(Ok(pid)) ==> new.child_pid() == pid)
        &&& (!(ev is Cloned) ==> new.child_pid() == old.child_pid())
        // A failed step after the clone leaves its error pending until the
        // child is recovered.
        &&& (Self::error_of(ev) matches Some(e) ==> new.pending() == e)
        &&& (Self::error_of(ev) is None ==> new.pending() == old.pending())
        // The child runs the child-side configurators of the specs.
        &&& (r matches SpawnAction::Clone { flags, inner } ==> inner@ == old.specs().map_values(
            |s: Spec| s.internal_of(),
        ))
        // A spec that cannot prepare the host ends the spawn with its error,
        // before any stack is mapped or child cloned.
        &&& (ev matches SpawnEvent::Prepared(Err(e)) ==> new.history() == prepares(old.history().len()).push(
            SpawnStep::Failed(e),
        ))
        // The clone comes after every spec is prepared and the stack is
        // mapped, with the context's flags.
        &&& (r is Clone ==> new.history() == old.pre_clone())
        // The child is resumed only once every parent-side write is done and
        // the child has stopped.
        &&& (r matches SpawnAction::Continue(pid) ==> new.history() == old.pre_clone() + write_steps(
            old.planned_writes(pid),
        ) + seq![SpawnStep::WaitStopped(pid), SpawnStep::Continue(pid)])
        // The stack is unmapped once, as it was mapped.
        &&& (r matches SpawnAction::UnmapStack { start, size } ==> start == old.mapped_start() && size
            == old.stack_len() && !old.unmapped())
        // The handle owns the stack as it was mapped, and the parent-side
        // configurators.
        &&& (r matches SpawnAction::Spawned(c) ==> new.history() == old.happy(c.pid_spec())
            && c.stack_spec() == (old.mapped_start(), old.stack_len() as usize) && c.outer_spec()
            == old.outer_configs() && !c.is_reaped())
    }

    /// The next action, given the outcome `ev` of the last one.
    pub fn next(&mut self, ev: SpawnEvent) -> (r: SpawnAction)
        requires
            old(self).wf(),
            old(self).awaits(ev),
        ensures
            final(self).wf(),
            Self::lawful(*old(self), *final(self), ev, r),
    {
        let mut phase = SpawnPhase::Done;
        std::mem::swap(&mut phase, &mut self.phase);
        match phase {
            SpawnPhase::Preparing(i) => self.on_prepared(i, ev),
            SpawnPhase::Mapping => self.on_mapped(ev),
            SpawnPhase::Cloning(st) => self.on_cloned(st, ev),
            SpawnPhase::Writing(pid, st) => self.on_written(pid, st, ev),
            SpawnPhase::WaitingStop(pid, st) => self.on_stopped(pid, st, ev),
            SpawnPhase::Continuing(pid, st) => self.on_continued(pid, st, ev),
            SpawnPhase::Killing(pid, st, e) => {
                self.phase = SpawnPhase::Reaping(pid, st, e);
                let a = SpawnAction::Reap(pid);
                proof {
                    self.history@ = self.history@.push(a.step());
                }
                a
            },
            SpawnPhase::Reaping(pid, st, e) => self.on_reaped(pid, st, e, ev),
            SpawnPhase::Unmapping(e) => {
                let a = SpawnAction::Failed(e);
                proof {
                    self.history@ = self.history@.push(a.step());
                }
                a
            },
            _ => vstd::pervasive::unreached(),
        }
    }

    fn on_prepared(&mut self, i: usize, ev: SpawnEvent) -> (r: SpawnAction)
        requires
            old(self).wf_at(SpawnPhase::Preparing(i)),
            ev is Prepared,
        ensures
            final(self).wf(),
            Self::lawful(*old(self), *final(self), ev, r),
    {
        match ev {
            SpawnEvent::Prepared(Ok(())) => {
                let n = self.ctx.len();
                if i + 1 < n {
                    self.phase = SpawnPhase::Preparing(i + 1);
                    let a = SpawnAction::Prepare(i + 1);
                    proof {
                        self.history@ = self.history@.push(a.step());
                        assert(self.history@ =~= prepares((i + 2) as nat));
                    }
                    a
                } else {
                    proof {
                        assert(self.history@ =~= prepares(self.specs@.len()));
                    }
                    self.begin_mapping()
                }
            },
            SpawnEvent::Prepared(Err(e)) => {
                self.phase = SpawnPhase::Done;
                let a = SpawnAction::Failed(e);
                proof {
                    self.history@ = self.history@.push(a.step());
                }
                a
            },
            _ => vstd::pervasive::unreached(),
        }
    }

    fn on_mapped(&mut self, ev: SpawnEvent) -> (r: SpawnAction)
        requires
            old(self).wf_at(SpawnPhase::Mapping),
            ev is StackMapped,
        ensures
            final(self).wf(),
            Self::lawful(*old(self), *final(self), ev, r),
    {
        let a = match ev {
            SpawnEvent::StackMapped(Ok(addr)) => {
                proof {
                    self.mapped_start@ = addr;
                }
                match Stack::from_ptr(addr, self.len) {
                    Ok(st) => {
                        let mut c = Context::new();
                        std::mem::swap(&mut c, &mut self.ctx);
                        let flags = c.clone_flags();
                        let (outer, inner) = c.split();
                        self.outer = Some(outer);
                        self.phase = SpawnPhase::Cloning(st);
                        SpawnAction::Clone { flags, inner }
                    },
                    Err(e) => {
                        self.phase = SpawnPhase::Done;
                        SpawnAction::Failed(e)
                    },
                }
            },
            SpawnEvent::StackMapped(Err(errno)) => {
                self.phase = SpawnPhase::Done;
                SpawnAction::Failed(Error::StackAllocation(errno))
            },
            _ => vstd::pervasive::unreached(),
        };
        proof {
            self.history@ = self.history@.push(a.step());
            if self.phase is Cloning {
                assert(self.history@ =~= self.pre_clone());
            }
        }
        a
    }

    fn on_cloned(&mut self, st: Stack, ev: SpawnEvent) -> (r: SpawnAction)
        requires
            old(self).wf_at(SpawnPhase::Cloning(st)),
            ev is Cloned,
        ensures
            final(self).wf(),
            Self::lawful(*old(self), *final(self), ev, r),
    {
        match ev {
            SpawnEvent::Cloned(Ok(pid)) => {
                proof {
                    self.child_pid@ = pid;
                }
                let mut ws = match &self.outer {
                    Some(o) => o.proc_writes(pid, self.uid, self.gid),
                    None => Vec::new(),
                };
                let ghost pw = self.planned_writes(pid);
                assert(ws@.map_values(|w: ProcWrite| w@) == pw);
                if ws.len() > 0 {
                    let w = ws.remove(0);
                    self.writes = ws;
                    proof {
                        assert(self.writes@.map_values(|w: ProcWrite| w@) =~= pw.skip(1));
                        self.written@ = 0;
                    }
                    self.phase = SpawnPhase::Writing(pid, st);
                    let a = SpawnAction::WriteProc(w);
                    proof {
                        self.history@ = self.history@.push(a.step());
                        assert(self.history@ =~= self.pre_clone() + write_steps(pw.take(1)));
                    }
                    a
                } else {
                    self.phase = SpawnPhase::WaitingStop(pid, st);
                    let a = SpawnAction::WaitStopped(pid);
                    proof {
                        self.history@ = self.history@.push(a.step());
                        assert(pw =~= Seq::<ProcWriteView>::empty());
                        assert(self.happy(pid).take((self.pre_clone().len() + pw.len() + 1) as int) =~= self.history@);
                    }
                    a
                }
            },
            SpawnEvent::Cloned(Err(errno)) => {
                let start = st.start();
                let size = st.size();
                proof {
                    self.pending@ = Error::Clone(errno);
                }
                self.phase = SpawnPhase::Unmapping(Error::Clone(errno));
                let a = SpawnAction::UnmapStack { start, size };
                proof {
                    assert(!self.unmapped());
                    self.history@ = self.history@.push(a.step());
                    assert(self.history@.take(self.pre_clone().len() as int) =~= self.pre_clone());
                }
                a
            },
            _ => vstd::pervasive::unreached(),
        }
    }

    fn on_written(&mut self, pid: u32, st: Stack, ev: SpawnEvent) -> (r: SpawnAction)
        requires
            old(self).wf_at(SpawnPhase::Writing(pid, st)),
            ev is Written,
        ensures
            final(self).wf(),
            Self::lawful(*old(self), *final(self), ev, r),
    {
        let ghost k = self.written@ as int;
        let ghost pw = self.planned_writes(pid);
        match ev {
            SpawnEvent::Written(Ok(())) => {
                let ghost before = self.writes@;
                assert(before.map_values(|w: ProcWrite| w@).len() == before.len());
                if self.writes.len() > 0 {
                    let w = self.writes.remove(0);
                    proof {
                        assert(before.map_values(|w: ProcWrite| w@)[0] == w@);
                        assert forall|j: int| 0 <= j < self.writes@.len() implies
                            #[trigger] self.writes@[j]@ == pw.skip(k + 2)[j] by {
                            assert(self.writes@[j] == before[j + 1]);
                            assert(before.map_values(|w: ProcWrite| w@)[j + 1] == pw.skip(k + 1)[j + 1]);
                        }
                        assert(self.writes@.map_values(|w: ProcWrite| w@) =~= pw.skip(k + 2));
                        self.written@ = (k + 1) as nat;
                    }
                    self.phase = SpawnPhase::Writing(pid, st);
                    let a = SpawnAction::WriteProc(w);
                    proof {
                        self.history@ = self.history@.push(a.step());
                        assert(pw.take(k + 2) =~= pw.take(k + 1).push(pw[k + 1]));
                        assert(self.history@ =~= self.pre_clone() + write_steps(pw.take(k + 2)));
                    }
                    a
                } else {
                    self.phase = SpawnPhase::WaitingStop(pid, st);
                    let a = SpawnAction::WaitStopped(pid);
                    proof {
                        assert(pw.take(k + 1) =~= pw);
                        self.history@ = self.history@.push(a.step());
                        assert(self.happy(pid).take((self.pre_clone().len() + pw.len() + 1) as int) =~= self.history@);
                    }
                    a
                }
            },
            SpawnEvent::Written(Err(e)) => {
                proof {
                    self.cut@ = (self.pre_clone().len() + k + 1) as nat;
                    assert(self.happy(pid).take(self.cut@ as int) =~= self.history@);
                }
                proof {
                    self.pending@ = Error::ProcWrite(e);
                }
                self.phase = SpawnPhase::Killing(pid, st, Error::ProcWrite(e));
                let a = SpawnAction::Kill(pid);
                proof {
                    self.history@ = self.history@.push(a.step());
                }
                a
            },
            _ => vstd::pervasive::unreached(),
        }
    }

    fn on_stopped(&mut self, pid: u32, st: Stack, ev: SpawnEvent) -> (r: SpawnAction)
        requires
            old(self).wf_at(SpawnPhase::WaitingStop(pid, st)),
            ev is Stopped,
        ensures
            final(self).wf(),
            Self::lawful(*old(self), *final(self), ev, r),
    {
        let ghost m = (self.pre_clone().len() + self.planned_writes(pid).len()) as int;
        match ev {
            SpawnEvent::Stopped(Ok(())) => {
                self.phase = SpawnPhase::Continuing(pid, st);
                let a = SpawnAction::Continue(pid);
                proof {
                    self.history@ = self.history@.push(a.step());
                    assert(self.happy(pid).take(m + 2) =~= self.history@);
                    assert(self.history@ =~= self.pre_clone() + write_steps(self.planned_writes(pid)) + seq![
                        SpawnStep::WaitStopped(pid),
                        SpawnStep::Continue(pid),
                    ]);
                }
                a
            },
            SpawnEvent::Stopped(Err(errno)) => {
                proof {
                    self.cut@ = (m + 1) as nat;
                }
                proof {
                    self.pending@ = Error::ChildWait(errno);
                }
                self.phase = SpawnPhase::Killing(pid, st, Error::ChildWait(errno));
                let a = SpawnAction::Kill(pid);
                proof {
                    self.history@ = self.history@.push(a.step());
                }
                a
            },
            _ => vstd::pervasive::unreached(),
        }
    }

    fn on_continued(&mut self, pid: u32, st: Stack, ev: SpawnEvent) -> (r: SpawnAction)
        requires
            old(self).wf_at(SpawnPhase::Continuing(pid, st)),
            ev is Continued,
        ensures
            final(self).wf(),
            Self::lawful(*old(self), *final(self), ev, r),
    {
        let ghost m = (self.pre_clone().len() + self.planned_writes(pid).len()) as int;
        match ev {
            SpawnEvent::Continued(Ok(())) => {
                let outer = self.outer.take().unwrap();
                self.phase = SpawnPhase::Done;
                let a = SpawnAction::Spawned(Child::new(pid, outer, st));
                proof {
                    self.history@ = self.history@.push(a.step());
                    assert(self.happy(pid) =~= self.history@);
                }
                a
            },
            SpawnEvent::Continued(Err(errno)) => {
                proof {
                    self.cut@ = (m + 2) as nat;
                }
                proof {
                    self.pending@ = Error::ChildContinue(errno);
                }
                self.phase = SpawnPhase::Killing(pid, st, Error::ChildContinue(errno));
                let a = SpawnAction::Kill(pid);
                proof {
                    self.history@ = self.history@.push(a.step());
                }
                a
            },
            _ => vstd::pervasive::unreached(),
        }
    }

    fn on_reaped(&mut self, pid: u32, st: Stack, e: Error, ev: SpawnEvent) -> (r: SpawnAction)
        requires
            old(self).wf_at(SpawnPhase::Reaping(pid, st, e)),
            ev is Reaped,
        ensures
            final(self).wf(),
            Self::lawful(*old(self), *final(self), ev, r),
    {
        let start = st.start();
        let size = st.size();
        self.phase = SpawnPhase::Unmapping(e);
        let a = SpawnAction::UnmapStack { start, size };
        proof {
            let h0 = self.history@;
            let hp = self.happy(pid);
            let c = self.cut@ as int;
            assert(h0 == hp.take(c).push(SpawnStep::Kill(pid)).push(SpawnStep::Reap(pid)));
            assert forall|i: int| 0 <= i < h0.len() implies !(#[trigger] h0[i] is Unmap) by {
                if i < c {
                    assert(h0[i] == hp[i]);
                    if i >= self.pre_clone().len() {
                        let w = i - self.pre_clone().len();
                        if w < self.planned_writes(pid).len() {
                            assert(hp[i] == write_steps(self.planned_writes(pid))[w]);
                        }
                    }
                }
            }
            self.history@ = self.history@.push(a.step());
            assert(self.history@.take(self.pre_clone().len() as int) =~= self.pre_clone());
        }
        a
    }
}

} // verus!
