//! The child's side of a spawn, as a state machine.
//!
//! The child first turns panics into aborts and stops itself; the parent
//! resumes it once the parent-side configuration is done. The child then
//! performs its mounts in insertion order, runs the user callable, undoes
//! the mounts that ask for it in reverse order, and exits with status 0.
//! Any failure on the way aborts the child.

use vstd::prelude::*;
use crate::context::ContextInner;
use crate::error::Error;
use crate::namespace::InternalConfig;
use crate::namespace::mount::{MountCall, MountView};

verus! {

/// A step that the child takes, as the history of its entry records it.
pub enum EntryStep {
    InstallPanicHook,
    StopSelf,
    Mount(nat),
    RunUser,
    Unmount(nat),
    Exit,
    Abort,
}

/// What the child does next.
#[derive(Debug)]
pub enum EntryAction {
    /// Install a panic hook that aborts the process.
    InstallPanicHook,
    /// Send the stop signal to itself; it returns once the parent resumes it.
    StopSelf,
    /// Perform this mount: create the mount point if asked, call `mount(2)`,
    /// and canonicalize the mount point.
    Mount(MountCall),
    /// Run the user callable.
    RunUser,
    /// Unmount this path.
    Unmount(String),
    /// Exit with this status.
    Exit(i32),
    /// Print the error and abort the process.
    Abort(Error),
}

/// The outcome of the last action.
#[derive(Debug)]
pub enum EntryEvent {
    /// The action succeeded (any but a mount).
    Done,
    /// The mount succeeded; the canonical mount point.
    Mounted(String),
    /// The action failed.
    Failed,
}

/// Where the child stands; each phase but `Init` and `Done` awaits the
/// outcome of the action that led to it.
enum EntryPhase {
    Init,
    Hooking,
    Stopping,
    Mounting(usize),
    Running,
    Unmounting(usize),
    Done,
}

/// The mount that configurator `c` performs, if any.
pub open spec fn mount_of(c: InternalConfig) -> Option<MountView> {
    match c {
        InternalConfig::Mount(m) => Some(m@),
        InternalConfig::Empty => None,
    }
}

/// The mount steps of the first `k` configurators, in insertion order.
pub open spec fn mount_steps(cs: Seq<InternalConfig>, k: nat) -> Seq<EntryStep>
    decreases k,
{
    if k == 0 || k > cs.len() {
        Seq::empty()
    } else {
        mount_steps(cs, (k - 1) as nat) + (if mount_of(cs[k - 1]) is Some {
            seq![EntryStep::Mount((k - 1) as nat)]
        } else {
            Seq::empty()
        })
    }
}

/// Whether configurator `c` is a mount that asks to be undone on the way out.
pub open spec fn unmounts(c: InternalConfig) -> bool {
    mount_of(c) matches Some(m) && m.unmount_on_drop
}

/// The unmount steps of the configurators from index `k` on, last first.
pub open spec fn unmount_steps(cs: Seq<InternalConfig>, k: nat) -> Seq<EntryStep>
    decreases cs.len() - k,
{
    if k >= cs.len() {
        Seq::empty()
    } else {
        unmount_steps(cs, k + 1) + (if unmounts(cs[k as int]) {
            seq![EntryStep::Unmount(k)]
        } else {
            Seq::empty()
        })
    }
}

/// The child-side entry machine.
pub struct Entry {
    phase: EntryPhase,
    configs: Vec<InternalConfig>,
    initial: Ghost<Seq<InternalConfig>>,
    history: Ghost<Seq<EntryStep>>,
}

impl EntryAction {
    /// The step that this action is, where the child stands at configurator
    /// `i`.
    pub open spec fn step(&self, i: nat) -> EntryStep {
        match self {
            EntryAction::InstallPanicHook => EntryStep::InstallPanicHook,
            EntryAction::StopSelf => EntryStep::StopSelf,
            EntryAction::Mount(_) => EntryStep::Mount(i),
            EntryAction::RunUser => EntryStep::RunUser,
            EntryAction::Unmount(_) => EntryStep::Unmount(i),
            EntryAction::Exit(_) => EntryStep::Exit,
            EntryAction::Abort(_) => EntryStep::Abort,
        }
    }
}

/// Configurator `c` is `c0` after its mount, if any, succeeded.
pub open spec fn after_mount(c0: InternalConfig, c: InternalConfig) -> bool {
    match mount_of(c0) {
        None => mount_of(c) is None,
        Some(m0) => mount_of(c) matches Some(m) && m0.mounted is None && m.mounted is Some && m
            == (MountView { mounted: m.mounted, ..m0 }),
    }
}

/// Whether `c` is the call of the mount that step `s` stands for.
pub open spec fn performs(cs: Seq<InternalConfig>, s: EntryStep, c: MountCall) -> bool {
    match s {
        EntryStep::Mount(i) => i < cs.len() && match mount_of(cs[i as int]) {
            Some(m) => c.view_parts() == m.call(),
            None => false,
        },
        _ => false,
    }
}

/// Whether the mount `m` cannot be made: its spec is mounted already, or a
/// path of it holds a NUL character.
pub open spec fn refused(m: MountView) -> bool {
    m.mounted is Some || m.bad_path()
}

/// The error of a mount `m` that cannot be made, as [`Mount::mount_call`]
/// gives it.
///
/// [`Mount::mount_call`]: crate::namespace::Mount::mount_call
pub open spec fn refusal_error(m: MountView, e: Error) -> bool {
    if m.mounted is Some {
        e matches Error::Mount(x) && x@ == m
    } else {
        e == Error::PathEncoding
    }
}

/// The first configurator from index `j` on that has a mount.
pub open spec fn first_mount(cs: Seq<InternalConfig>, j: nat) -> Option<nat>
    decreases cs.len() - j,
{
    if j >= cs.len() {
        None
    } else if mount_of(cs[j as int]) is Some {
        Some(j)
    } else {
        first_mount(cs, j + 1)
    }
}

/// The last configurator before index `j` whose mount asks to be undone.
pub open spec fn last_unmount(cs: Seq<InternalConfig>, j: nat) -> Option<nat>
    decreases j,
{
    if j == 0 || j > cs.len() {
        None
    } else if unmounts(cs[j - 1]) {
        Some((j - 1) as nat)
    } else {
        last_unmount(cs, (j - 1) as nat)
    }
}

/// The configurator that a mount or unmount step stands for.
pub open spec fn index_of(s: EntryStep) -> nat {
    match s {
        EntryStep::Mount(i) => i,
        EntryStep::Unmount(i) => i,
        _ => 0,
    }
}

/// `new` is `old` with configurator `i` changed to hold the mount `m`.
pub open spec fn with_mount(old: Seq<InternalConfig>, new: Seq<InternalConfig>, i: nat, m: MountView) -> bool {
    &&& new.len() == old.len()
    &&& i < old.len()
    &&& mount_of(new[i as int]) == Some(m)
    &&& forall|j: int| 0 <= j < old.len() && j != i ==> #[trigger] new[j] == old[j]
}

/// `InstallPanicHook`, then `StopSelf`.
pub open spec fn entry_head() -> Seq<EntryStep> {
    seq![EntryStep::InstallPanicHook, EntryStep::StopSelf]
}

impl Entry {
    /// The configurators as the entry received them.
    pub closed spec fn initial(&self) -> Seq<InternalConfig> {
        self.initial@
    }

    /// The configurators as they stand now.
    pub closed spec fn configs(&self) -> Seq<InternalConfig> {
        self.configs@
    }

    /// The steps taken so far, oldest first.
    pub closed spec fn history(&self) -> Seq<EntryStep> {
        self.history@
    }

    /// The steps up to the user callable: the hook, the stop, and every
    /// mount in insertion order.
    pub open spec fn through_user(&self) -> Seq<EntryStep> {
        entry_head() + mount_steps(self.initial(), self.initial().len()) + seq![EntryStep::RunUser]
    }

    /// The steps of a child that runs to its end.
    pub open spec fn through_exit(&self) -> Seq<EntryStep> {
        self.through_user() + unmount_steps(self.initial(), 0) + seq![EntryStep::Exit]
    }

    closed spec fn wf_at(&self, phase: EntryPhase) -> bool {
        let cs0 = self.initial@;
        let cs = self.configs@;
        &&& cs.len() == cs0.len()
        &&& match phase {
            EntryPhase::Init => cs == cs0 && self.history@ == Seq::<EntryStep>::empty(),
            EntryPhase::Hooking => cs == cs0 && self.history@ == seq![EntryStep::InstallPanicHook],
            EntryPhase::Stopping => cs == cs0 && self.history@ == entry_head(),
            EntryPhase::Mounting(i) => i < cs0.len() && mount_of(cs0[i as int]) is Some
                && mount_of(cs[i as int]) == mount_of(cs0[i as int])
                && mount_of(cs0[i as int]).unwrap().mounted is None
                && (forall|j: int| 0 <= j < i ==> after_mount(cs0[j], #[trigger] cs[j]))
                && (forall|j: int| i < j < cs.len() ==> #[trigger] cs[j] == cs0[j])
                && self.history@ == entry_head() + mount_steps(cs0, (i + 1) as nat)
                && self.history@.last() == EntryStep::Mount(i as nat),
            EntryPhase::Running => (forall|j: int| 0 <= j < cs.len() ==> after_mount(cs0[j], #[trigger] cs[j]))
                && self.history@ == self.through_user() && self.history@.last() == EntryStep::RunUser,
            EntryPhase::Unmounting(i) => i < cs0.len() && unmounts(cs0[i as int])
                && (forall|j: int| 0 <= j <= i ==> after_mount(cs0[j], #[trigger] cs[j]))
                && self.history@ == self.through_user() + unmount_steps(cs0, i as nat)
                && self.history@.last() == EntryStep::Unmount(i as nat),
            EntryPhase::Done => self.history@.len() > 0 && (self.history@.last() is Exit
                || self.history@.last() is Abort),
        }
    }

    /// The machine's invariant.
    pub closed spec fn wf(&self) -> bool {
        self.wf_at(self.phase)
    }

    /// Whether `ev` is the outcome of the action that the machine awaits:
    /// the outcome of its last step, where that step awaits one.
    pub open spec fn awaits(&self, ev: EntryEvent) -> bool {
        self.history().len() > 0 && match self.history().last() {
            EntryStep::InstallPanicHook => ev is Done,
            EntryStep::StopSelf => ev is Done,
            EntryStep::Mount(_) => ev is Mounted || ev is Failed,
            EntryStep::RunUser => ev is Done,
            EntryStep::Unmount(_) => ev is Done || ev is Failed,
            _ => false,
        }
    }

    /// Whether the machine has not taken its first step yet.
    pub open spec fn is_fresh(&self) -> bool {
        self.history().len() == 0
    }

    /// The step that makes the mount of the first configurator from index
    /// `j` on that has one: the mount, or an abort where it cannot be made;
    /// with none left, the user callable.
    pub open spec fn mount_or_run(&self, j: nat) -> EntryStep {
        match first_mount(self.initial(), j) {
            Some(k) => if refused(mount_of(self.initial()[k as int]).unwrap()) {
                EntryStep::Abort
            } else {
                EntryStep::Mount(k)
            },
            None => EntryStep::RunUser,
        }
    }

    /// The step that undoes the mount of the last configurator before index
    /// `j` that asks for it; with none left, the exit.
    pub open spec fn unmount_or_exit(&self, j: nat) -> EntryStep {
        match last_unmount(self.initial(), j) {
            Some(k) => EntryStep::Unmount(k),
            None => EntryStep::Exit,
        }
    }

    /// The index from which the mounts still to make are looked for.
    pub open spec fn mount_from(&self) -> nat {
        match self.history().last() {
            EntryStep::Mount(i) => i + 1,
            _ => 0,
        }
    }

    /// The step that follows the outcome `ev` of the last step.
    pub open spec fn next_step(&self, ev: EntryEvent) -> EntryStep {
        match self.history().last() {
            EntryStep::InstallPanicHook => EntryStep::StopSelf,
            EntryStep::StopSelf => self.mount_or_run(0),
            EntryStep::Mount(i) => if ev is Failed {
                EntryStep::Abort
            } else {
                self.mount_or_run(i + 1)
            },
            EntryStep::RunUser => self.unmount_or_exit(self.initial().len()),
            EntryStep::Unmount(i) => if ev is Failed {
                EntryStep::Abort
            } else {
                self.unmount_or_exit(i)
            },
            _ => EntryStep::Abort,
        }
    }

    /// Whether `e` is the error that the child aborts with after `ev`: the
    /// spec of the mount or unmount that failed, or the refusal of the mount
    /// that cannot be made.
    pub open spec fn abort_error(&self, ev: EntryEvent, e: Error) -> bool {
        if ev is Failed {
            e matches Error::Mount(m) && Some(m@) == mount_of(
                self.configs()[index_of(self.history().last()) as int],
            )
        } else {
            refusal_error(
                mount_of(self.initial()[first_mount(self.initial(), self.mount_from()).unwrap() as int]).unwrap(),
                e,
            )
        }
    }

    /// What every step of the machine keeps: the configurators it started
    /// with stay, and:
    pub open spec fn lawful(old: Entry, new: Entry, ev: EntryEvent, r: EntryAction) -> bool {
        let s = old.next_step(ev);
        let i = index_of(old.history().last());
        &&& new.initial() == old.initial()
        // The action taken is the one that the outcome of the last step calls
        // for, and the history records it.
        &&& r.step(index_of(s)) == s
        &&& new.history() == old.history().push(s)
        &&& (r matches EntryAction::Mount(c) ==> performs(old.initial(), s, c))
        &&& (r matches EntryAction::Unmount(p) ==> mount_of(old.configs()[index_of(s) as int]) matches Some(m)
            && m.mounted == Some(p@))
        &&& (r matches EntryAction::Abort(e) ==> old.abort_error(ev, e))
        &&& (r is Exit ==> r == EntryAction::Exit(0))
        // A mount made is recorded with its canonical path, an unmount
        // clears it, and nothing else changes the configurators.
        &&& (ev matches EntryEvent::Mounted(p) ==> with_mount(
            old.configs(),
            new.configs(),
            i,
            MountView { mounted: Some(p@), ..mount_of(old.configs()[i as int]).unwrap() },
        ))
        &&& (ev is Done && old.history().last() is Unmount ==> with_mount(
            old.configs(),
            new.configs(),
            i,
            MountView { mounted: None, ..mount_of(old.configs()[i as int]).unwrap() },
        ))
        &&& (!(ev is Mounted) && !(ev is Done && old.history().last() is Unmount) ==> new.configs()
            == old.configs())
        // A mount is made only after the child was stopped and resumed.
        &&& (r is Mount ==> old.history().len() >= 2 && old.history().take(2) == entry_head())
        // The user callable runs once every mount has been made.
        &&& (r is RunUser ==> new.history() == old.through_user())
        // The child exits only after undoing, last first, exactly the mounts
        // that ask to be undone.
        &&& (r is Exit ==> new.history() == old.through_exit())
    }

    /// The entry of a child that runs the configurators of `inner`.
    pub fn new(inner: ContextInner) -> (r: Entry)
        ensures
            r.wf(),
            r.is_fresh(),
            r.initial() == inner@,
            r.configs() == inner@,
    {
        let configs = inner.into_configs();
        let ghost initial = configs@;
        Entry { phase: EntryPhase::Init, configs, initial: Ghost(initial), history: Ghost(Seq::empty()) }
    }

    /// The first action: install the panic hook.
    pub fn start(&mut self) -> (r: EntryAction)
        requires
            old(self).wf(),
            old(self).is_fresh(),
        ensures
            final(self).wf(),
            final(self).initial() == old(self).initial(),
            final(self).configs() == old(self).configs(),
            final(self).history() == seq![EntryStep::InstallPanicHook],
            r is InstallPanicHook,
    {
        self.phase = EntryPhase::Hooking;
        proof {
            self.history@ = self.history@.push(EntryStep::InstallPanicHook);
            assert(self.history@ =~= seq![EntryStep::InstallPanicHook]);
        }
        EntryAction::InstallPanicHook
    }

    /// Make the mount of the first configurator from index `from` on that
    /// has one; with none left, run the user callable.
    fn advance_mount(&mut self, from: usize) -> (r: EntryAction)
        requires
            from <= old(self).initial@.len(),
            old(self).configs@.len() == old(self).initial@.len(),
            forall|j: int| 0 <= j < from ==> after_mount(old(self).initial@[j], #[trigger] old(self).configs@[j]),
            forall|j: int| from <= j < old(self).configs@.len() ==> #[trigger] old(self).configs@[j] == old(self).initial@[j],
            old(self).history@ == entry_head() + mount_steps(old(self).initial@, from as nat),
        ensures
            final(self).wf(),
            final(self).initial@ == old(self).initial@,
            final(self).configs@ == old(self).configs@,
            final(self).history@ == old(self).history@.push(old(self).mount_or_run(from as nat)),
            r.step(index_of(old(self).mount_or_run(from as nat))) == old(self).mount_or_run(from as nat),
            r matches EntryAction::Mount(c) ==> performs(old(self).initial(), old(self).mount_or_run(from as nat), c),
            r matches EntryAction::Abort(e) ==> refusal_error(
                mount_of(old(self).initial()[first_mount(old(self).initial(), from as nat).unwrap() as int]).unwrap(),
                e,
            ),
            r is RunUser ==> final(self).history() == old(self).through_user(),
            r is Mount ==> old(self).history().len() >= 2 && old(self).history().take(2) == entry_head(),
    {
        let n = self.configs.len();
        let mut j = from;
        while j < n
            invariant
                from <= j <= n,
                n == self.configs@.len(),
                n == self.initial@.len(),
                forall|k: int| from <= k < n ==> #[trigger] self.configs@[k] == self.initial@[k],
                forall|k: int| 0 <= k < from ==> after_mount(self.initial@[k], #[trigger] self.configs@[k]),
                self.history@ == entry_head() + mount_steps(self.initial@, from as nat),
                self.configs@ == old(self).configs@,
                self.history@ == old(self).history@,
                self.initial@ == old(self).initial@,
                forall|k: int| from <= k < j ==> mount_of(#[trigger] self.initial@[k]) is None,
                mount_steps(self.initial@, j as nat) == mount_steps(self.initial@, from as nat),
                first_mount(self.initial@, j as nat) == first_mount(self.initial@, from as nat),
            decreases n - j,
        {
            match &self.configs[j] {
                InternalConfig::Mount(m) => {
                    proof {
                        assert(self.configs@[j as int] == self.initial@[j as int]);
                        assert(mount_of(self.initial@[j as int]) == Some(m@));
                        assert(first_mount(self.initial@, j as nat) == Some(j as nat));
                    }
                    let call = m.mount_call();
                    match call {
                        Ok(c) => {
                            self.phase = EntryPhase::Mounting(j);
                            let a = EntryAction::Mount(c);
                            proof {
                                let h0 = self.history@;
                                assert(mount_steps(self.initial@, (j + 1) as nat) == mount_steps(self.initial@, j as nat)
                                    + seq![EntryStep::Mount(j as nat)]);
                                self.history@ = self.history@.push(a.step(j as nat));
                                assert(self.history@ =~= entry_head() + mount_steps(self.initial@, (j + 1) as nat));
                                assert(h0.take(2) =~= entry_head());
                            }
                            return a;
                        },
                        Err(e) => {
                            self.phase = EntryPhase::Done;
                            let a = EntryAction::Abort(e);
                            proof {
                                self.history@ = self.history@.push(a.step(j as nat));
                            }
                            return a;
                        },
                    }
                },
                InternalConfig::Empty => {},
            }
            proof {
                assert(mount_steps(self.initial@, (j + 1) as nat) =~= mount_steps(self.initial@, j as nat));
                assert(first_mount(self.initial@, j as nat) == first_mount(self.initial@, (j + 1) as nat));
            }
            j = j + 1;
        }
        assert(first_mount(self.initial@, n as nat) is None);
        self.phase = EntryPhase::Running;
        let a = EntryAction::RunUser;
        proof {
            self.history@ = self.history@.push(a.step(0));
            assert(self.history@ =~= self.through_user());
            assert forall|k: int| 0 <= k < self.configs@.len() implies after_mount(self.initial@[k], #[trigger] self.configs@[k]) by {
                if k >= from {
                    assert(self.configs@[k] == self.initial@[k]);
                }
            }
        }
        a
    }

    /// Undo the mount of the last configurator before index `upto` that
    /// asks for it; with none left, exit with status 0.
    fn advance_unmount(&mut self, upto: usize) -> (r: EntryAction)
        requires
            upto <= old(self).initial@.len(),
            old(self).configs@.len() == old(self).initial@.len(),
            forall|j: int| 0 <= j < upto ==> after_mount(old(self).initial@[j], #[trigger] old(self).configs@[j]),
            old(self).history@ == old(self).through_user() + unmount_steps(old(self).initial@, upto as nat),
        ensures
            final(self).wf(),
            final(self).initial@ == old(self).initial@,
            final(self).configs@ == old(self).configs@,
            final(self).history@ == old(self).history@.push(old(self).unmount_or_exit(upto as nat)),
            r.step(index_of(old(self).unmount_or_exit(upto as nat))) == old(self).unmount_or_exit(upto as nat),
            r matches EntryAction::Unmount(p) ==> mount_of(old(self).configs()[index_of(old(self).unmount_or_exit(upto as nat)) as int]) matches Some(m)
                && m.mounted == Some(p@),
            r is Exit ==> r == EntryAction::Exit(0) && final(self).history() == old(self).through_exit(),
    {
        let mut j = upto;
        while j > 0
            invariant
                j <= upto,
                upto <= self.initial@.len(),
                self.configs@.len() == self.initial@.len(),
                forall|k: int| 0 <= k < upto ==> after_mount(self.initial@[k], #[trigger] self.configs@[k]),
                self.history@ == self.through_user() + unmount_steps(self.initial@, upto as nat),
                self.configs@ == old(self).configs@,
                self.history@ == old(self).history@,
                self.initial@ == old(self).initial@,
                forall|k: int| j <= k < upto ==> !unmounts(#[trigger] self.initial@[k]),
                unmount_steps(self.initial@, j as nat) == unmount_steps(self.initial@, upto as nat),
                last_unmount(self.initial@, j as nat) == last_unmount(self.initial@, upto as nat),
            decreases j,
        {
            let i = j - 1;
            assert(after_mount(self.initial@[i as int], self.configs@[i as int]));
            match &self.configs[i] {
                InternalConfig::Mount(m) => {
                    match m.unmount_target() {
                        Some(p) => {
                            self.phase = EntryPhase::Unmounting(i);
                            let a = EntryAction::Unmount(p);
                            proof {
                                assert(unmounts(self.initial@[i as int]));
                                assert(last_unmount(self.initial@, j as nat) == Some(i as nat));
                                assert(unmount_steps(self.initial@, i as nat) == unmount_steps(self.initial@, j as nat)
                                    + seq![EntryStep::Unmount(i as nat)]);
                                self.history@ = self.history@.push(a.step(i as nat));
                                assert(self.history@ =~= self.through_user() + unmount_steps(self.initial@, i as nat));
                            }
                            return a;
                        },
                        None => {},
                    }
                },
                InternalConfig::Empty => {},
            }
            proof {
                assert(!unmounts(self.initial@[i as int]));
                assert(last_unmount(self.initial@, j as nat) == last_unmount(self.initial@, i as nat));
                assert(unmount_steps(self.initial@, i as nat) =~= unmount_steps(self.initial@, j as nat));
            }
            j = i;
        }
        assert(last_unmount(self.initial@, 0) is None);
        self.phase = EntryPhase::Done;
        let a = EntryAction::Exit(0);
        proof {
            self.history@ = self.history@.push(a.step(0));
            assert(self.history@ =~= self.through_exit());
        }
        a
    }

    /// The next action, given the outcome `ev` of the last one.
    pub fn next(&mut self, ev: EntryEvent) -> (r: EntryAction)
        requires
            old(self).wf(),
            old(self).awaits(ev),
        ensures
            final(self).wf(),
            Self::lawful(*old(self), *final(self), ev, r),
    {
        match self.phase {
            EntryPhase::Hooking => {
                self.phase = EntryPhase::Stopping;
                proof {
                    self.history@ = self.history@.push(EntryStep::StopSelf);
                    assert(self.history@ =~= entry_head());
                }
                EntryAction::StopSelf
            },
            EntryPhase::Stopping => {
                proof {
                    assert(mount_steps(self.initial@, 0) =~= Seq::<EntryStep>::empty());
                    assert(self.history@ =~= entry_head() + mount_steps(self.initial@, 0));
                }
                self.advance_mount(0)
            },
            EntryPhase::Mounting(i) => {
                match ev {
                    EntryEvent::Mounted(path) => {
                        let n = self.configs.len();
                        assert(i < n);
                        let ghost before = self.configs@;
                        match &mut self.configs[i] {
                            InternalConfig::Mount(m) => m.record_mount(path),
                            InternalConfig::Empty => {},
                        }
                        proof {
                            assert forall|k: int| 0 <= k < i + 1 implies after_mount(self.initial@[k], #[trigger] self.configs@[k]) by {
                                if k < i {
                                    assert(self.configs@[k] == before[k]);
                                }
                            }
                            assert forall|k: int| i + 1 <= k < self.configs@.len() implies #[trigger] self.configs@[k] == self.initial@[k] by {
                                assert(self.configs@[k] == before[k]);
                            }
                        }
                        self.advance_mount(i + 1)
                    },
                    _ => {
                        let e = match &self.configs[i] {
                            InternalConfig::Mount(m) => Error::Mount(m.snapshot()),
                            InternalConfig::Empty => vstd::pervasive::unreached(),
                        };
                        self.phase = EntryPhase::Done;
                        let a = EntryAction::Abort(e);
                        proof {
                            self.history@ = self.history@.push(a.step(0));
                        }
                        a
                    },
                }
            },
            EntryPhase::Running => {
                proof {
                    assert(self.history@ =~= self.through_user() + unmount_steps(self.initial@, self.initial@.len()));
                }
                let n = self.configs.len();
                self.advance_unmount(n)
            },
            EntryPhase::Unmounting(i) => {
                match ev {
                    EntryEvent::Done => {
                        let ghost before = self.configs@;
                        match &mut self.configs[i] {
                            InternalConfig::Mount(m) => m.record_unmount(),
                            InternalConfig::Empty => {},
                        }
                        proof {
                            assert forall|k: int| 0 <= k < i implies after_mount(self.initial@[k], #[trigger] self.configs@[k]) by {
                                assert(self.configs@[k] == before[k]);
                            }
                        }
                        self.advance_unmount(i)
                    },
                    _ => {
                        let e = match &self.configs[i] {
                            InternalConfig::Mount(m) => Error::Mount(m.snapshot()),
                            InternalConfig::Empty => vstd::pervasive::unreached(),
                        };
                        self.phase = EntryPhase::Done;
                        let a = EntryAction::Abort(e);
                        proof {
                            self.history@ = self.history@.push(a.step(0));
                        }
                        a
                    },
                }
            },
            _ => vstd::pervasive::unreached(),
        }
    }
}

/// The mount steps of the first `k` configurators are the mounts among
/// them, each once, in insertion order.
pub proof fn law_mount_steps(cs: Seq<InternalConfig>, k: nat)
    requires
        k <= cs.len(),
    ensures
        forall|j: int| 0 <= j < mount_steps(cs, k).len() ==> (#[trigger] mount_steps(cs, k)[j] matches EntryStep::Mount(x)
            && x < k),
        forall|i: nat| #[trigger] mount_steps(cs, k).contains(EntryStep::Mount(i)) <==> i < k
            && mount_of(cs[i as int]) is Some,
        forall|a: int, b: int|
            0 <= a < b < mount_steps(cs, k).len() ==> (#[trigger] mount_steps(cs, k)[a] matches EntryStep::Mount(x)
                && #[trigger] mount_steps(cs, k)[b] matches EntryStep::Mount(y) && x < y),
    decreases k,
{
    if k > 0 {
        law_mount_steps(cs, (k - 1) as nat);
        let prev = mount_steps(cs, (k - 1) as nat);
        let s = mount_steps(cs, k);
        assert forall|j: int| 0 <= j < s.len() implies (#[trigger] s[j] matches EntryStep::Mount(x) && x < k) by {
            if j < prev.len() {
                assert(s[j] == prev[j]);
            }
        }
        assert forall|i: nat| #[trigger] s.contains(EntryStep::Mount(i)) <==> i < k && mount_of(cs[i as int]) is Some by {
            if s.contains(EntryStep::Mount(i)) {
                let j = choose|j: int| 0 <= j < s.len() && s[j] == EntryStep::Mount(i);
                if j < prev.len() {
                    assert(prev[j] == s[j]);
                    assert(prev.contains(EntryStep::Mount(i)));
                }
            }
            if i < k && mount_of(cs[i as int]) is Some {
                if i < k - 1 {
                    assert(prev.contains(EntryStep::Mount(i)));
                    let j = choose|j: int| 0 <= j < prev.len() && prev[j] == EntryStep::Mount(i);
                    assert(s[j] == prev[j]);
                } else {
                    assert(s[prev.len() as int] == EntryStep::Mount(i));
                }
            }
        }
        assert forall|a: int, b: int| 0 <= a < b < s.len() implies (#[trigger] s[a] matches EntryStep::Mount(x)
            && #[trigger] s[b] matches EntryStep::Mount(y) && x < y) by {
            assert(s[a] == prev[a]);
            if b < prev.len() {
                assert(s[b] == prev[b]);
            }
        }
    }
}

/// The unmount steps of the configurators from index `k` on are the mounts
/// among them that ask to be undone, each once, last first.
pub proof fn law_unmount_steps(cs: Seq<InternalConfig>, k: nat)
    ensures
        forall|j: int| 0 <= j < unmount_steps(cs, k).len() ==> (#[trigger] unmount_steps(cs, k)[j] matches EntryStep::Unmount(x)
            && k <= x),
        forall|i: nat| #[trigger] unmount_steps(cs, k).contains(EntryStep::Unmount(i)) <==> k <= i < cs.len()
            && unmounts(cs[i as int]),
        forall|a: int, b: int|
            0 <= a < b < unmount_steps(cs, k).len() ==> (#[trigger] unmount_steps(cs, k)[a] matches EntryStep::Unmount(x)
                && #[trigger] unmount_steps(cs, k)[b] matches EntryStep::Unmount(y) && x > y),
    decreases cs.len() - k,
{
    if k < cs.len() {
        law_unmount_steps(cs, k + 1);
        let prev = unmount_steps(cs, k + 1);
        let s = unmount_steps(cs, k);
        assert forall|j: int| 0 <= j < s.len() implies (#[trigger] s[j] matches EntryStep::Unmount(x) && k <= x) by {
            if j < prev.len() {
                assert(s[j] == prev[j]);
            }
        }
        assert forall|i: nat| #[trigger] s.contains(EntryStep::Unmount(i)) <==> k <= i < cs.len() && unmounts(cs[i as int]) by {
            if s.contains(EntryStep::Unmount(i)) {
                let j = choose|j: int| 0 <= j < s.len() && s[j] == EntryStep::Unmount(i);
                if j < prev.len() {
                    assert(prev[j] == s[j]);
                    assert(prev.contains(EntryStep::Unmount(i)));
                }
            }
            if k <= i < cs.len() && unmounts(cs[i as int]) {
                if i > k {
                    assert(prev.contains(EntryStep::Unmount(i)));
                    let j = choose|j: int| 0 <= j < prev.len() && prev[j] == EntryStep::Unmount(i);
                    assert(s[j] == prev[j]);
                } else {
                    assert(s[prev.len() as int] == EntryStep::Unmount(i));
                }
            }
        }
        assert forall|a: int, b: int| 0 <= a < b < s.len() implies (#[trigger] s[a] matches EntryStep::Unmount(x)
            && #[trigger] s[b] matches EntryStep::Unmount(y) && x > y) by {
            assert(s[a] == prev[a]);
            if b < prev.len() {
                assert(s[b] == prev[b]);
            }
        }
    }
}

/// A child that runs to its end mounts each of its mount specs once, runs
/// the user callable after every mount and before any unmount, and undoes a
/// mount, once, exactly where the spec asks for it.
pub proof fn law_child_mounts(e: Entry, i: nat)
    requires
        i < e.initial().len(),
        mount_of(e.initial()[i as int]) is Some,
    ensures
        e.through_exit().contains(EntryStep::Mount(i)),
        e.through_exit().contains(EntryStep::Unmount(i)) <==> unmounts(e.initial()[i as int]),
        e.through_exit().to_multiset().count(EntryStep::Mount(i)) == 1,
        e.through_exit().to_multiset().count(EntryStep::Unmount(i)) <= 1,
{
    let cs = e.initial();
    let n = cs.len();
    law_mount_steps(cs, n);
    law_unmount_steps(cs, 0);
    let h = entry_head();
    let m = mount_steps(cs, n);
    let u = unmount_steps(cs, 0);
    let t = e.through_exit();
    assert(t == h + m + seq![EntryStep::RunUser] + u + seq![EntryStep::Exit]);
    let mi = EntryStep::Mount(i);
    let ui = EntryStep::Unmount(i);
    // Where each of the two steps stands in the history.
    assert forall|j: int| 0 <= j < t.len() && #[trigger] t[j] == mi implies 2 <= j < 2 + m.len()
        && m[j - 2] == mi by {
        if j >= 2 + m.len() + 1 && j < 2 + m.len() + 1 + u.len() {
            assert(t[j] == u[j - 3 - m.len()]);
            assert(u[j - 3 - m.len()] matches EntryStep::Unmount(_));
        }
    }
    assert forall|j: int| 0 <= j < t.len() && #[trigger] t[j] == ui implies 3 + m.len() <= j < 3 + m.len()
        + u.len() && u[j - 3 - m.len()] == ui by {
        if 2 <= j < 2 + m.len() {
            assert(t[j] == m[j - 2]);
            assert(m[j - 2] matches EntryStep::Mount(_));
        }
    }
    assert(m.contains(mi));
    let a = choose|a: int| 0 <= a < m.len() && m[a] == mi;
    assert(t[2 + a] == mi);
    assert(t.contains(mi));
    if unmounts(cs[i as int]) {
        assert(u.contains(ui));
        let b = choose|b: int| 0 <= b < u.len() && u[b] == ui;
        assert(t[3 + m.len() + b] == ui);
    }
    if t.contains(ui) {
        let j = choose|j: int| 0 <= j < t.len() && t[j] == ui;
        assert(u.contains(u[j - 3 - m.len()]));
    }
    // Each occurs at most once.
    lemma_count_le_one(t, mi);
    lemma_count_le_one(t, ui);
    t.to_multiset_ensures();
}

/// A step whose positions in `t` coincide occurs at most once there.
proof fn lemma_count_le_one(t: Seq<EntryStep>, x: EntryStep)
    requires
        forall|a: int, b: int| 0 <= a < t.len() && 0 <= b < t.len() && #[trigger] t[a] == x && #[trigger] t[b] == x ==> a == b,
    ensures
        t.to_multiset().count(x) <= 1,
    decreases t.len(),
{
    t.to_multiset_ensures();
    if t.len() > 0 {
        let p = t.drop_last();
        assert(t =~= p.push(t.last()));
        assert forall|a: int, b: int| 0 <= a < p.len() && 0 <= b < p.len() && #[trigger] p[a] == x && #[trigger] p[b] == x implies a == b by {
            assert(t[a] == p[a]);
            assert(t[b] == p[b]);
        }
        lemma_count_le_one(p, x);
        p.to_multiset_ensures();
        if t.last() == x {
            assert forall|a: int| 0 <= a < p.len() implies #[trigger] p[a] != x by {
                assert(t[a] == p[a]);
                assert(t[t.len() - 1] == x);
            }
            assert(!p.contains(x));
        }
    }
}

} // verus!
