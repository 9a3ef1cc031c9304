//! A context: the ordered namespace specs of a child and its spawn options.

use vstd::prelude::*;
use vstd::string::*;
use crate::error::Error;
use crate::flags::{
    CLONE_NEWCGROUP, CLONE_NEWIPC, CLONE_NEWNET, CLONE_NEWNS, CLONE_NEWPID, CLONE_NEWUSER,
    CLONE_NEWUTS, CLONE_VM, SIGCHLD,
};
use crate::namespace::{ExternalConfig, InternalConfig, Namespace, ProcWrite, ProcWriteView, Spec};
use crate::namespace::user::{gid_map_write, setgroups_deny_write};

verus! {

/// The stack size of a child unless a context sets another: 8 MiB.
pub const DEFAULT_STACK_SIZE: usize = 8388608;

/// Whether the child shares the parent's address space.
#[derive(Clone, Copy, Debug, PartialEq, Eq, Structural)]
pub enum Share {
    /// The child runs in the parent's address space, on a shared stack.
    Shared,
    /// The child runs in a copy of the parent's address space.
    Private,
}

/// A process execution context constructed of namespaces.
#[derive(Debug)]
pub struct Context {
    namespaces: Vec<Spec>,
    name: Option<String>,
    stack_size: usize,
    shared: Share,
}

/// What a [`Context`] holds.
pub struct ContextView {
    /// The namespace specs, in insertion order.
    pub specs: Seq<Spec>,
    /// The name of the context, if it has one.
    pub name: Option<Seq<char>>,
    /// The stack size asked for, in bytes.
    pub stack_size: usize,
    /// The address-space sharing mode.
    pub shared: Share,
}

impl View for Context {
    type V = ContextView;

    closed spec fn view(&self) -> ContextView {
        ContextView {
            specs: self.namespaces@,
            name: crate::namespace::mount::opt_view(self.name),
            stack_size: self.stack_size,
            shared: self.shared,
        }
    }
}

/// Whether some spec of `specs` contributes the clone bit `f`.
pub open spec fn requests(specs: Seq<Spec>, f: u32) -> bool {
    exists|i: int| 0 <= i < specs.len() && #[trigger] specs[i].bit() == Some(f)
}

/// `f` where `b` holds, else no bit.
pub open spec fn bit_if(b: bool, f: u32) -> u32 {
    if b {
        f
    } else {
        0
    }
}

/// The union of the clone bits of `specs`.
pub open spec fn namespace_bits(specs: Seq<Spec>) -> u32 {
    bit_if(requests(specs, CLONE_NEWNS), CLONE_NEWNS) | bit_if(
        requests(specs, CLONE_NEWCGROUP),
        CLONE_NEWCGROUP,
    ) | bit_if(requests(specs, CLONE_NEWUTS), CLONE_NEWUTS) | bit_if(
        requests(specs, CLONE_NEWIPC),
        CLONE_NEWIPC,
    ) | bit_if(requests(specs, CLONE_NEWUSER), CLONE_NEWUSER) | bit_if(
        requests(specs, CLONE_NEWPID),
        CLONE_NEWPID,
    ) | bit_if(requests(specs, CLONE_NEWNET), CLONE_NEWNET)
}

/// The flags handed to `clone`: the union of the specs' clone bits, `CLONE_VM`
/// where the address space is shared, and `SIGCHLD` as the termination
/// signal.
pub open spec fn clone_flags_of(specs: Seq<Spec>, shared: Share) -> u32 {
    namespace_bits(specs) | bit_if(shared == Share::Shared, CLONE_VM) | SIGCHLD
}

impl Context {
    /// Create a new empty context: no namespace, a shared address space and
    /// a stack of [`DEFAULT_STACK_SIZE`] bytes.
    ///
    /// Such a context runs the child in a new process with the privileges of
    /// the parent.
    pub fn new() -> (r: Context)
        ensures
            r@ == (ContextView {
                specs: Seq::empty(),
                name: None,
                stack_size: DEFAULT_STACK_SIZE,
                shared: Share::Shared,
            }),
    {
        Context {
            namespaces: Vec::new(),
            name: None,
            stack_size: DEFAULT_STACK_SIZE,
            shared: Share::Shared,
        }
    }

    /// Execute the child in a private address space.
    ///
    /// The child then can neither change the parent's memory nor see what
    /// the parent writes after the child has started.
    pub fn private(self) -> (r: Context)
        ensures
            r@ == (ContextView { shared: Share::Private, ..self@ }),
    {
        Context { shared: Share::Private, ..self }
    }

    /// Name the context.
    pub fn with_name(self, name: &str) -> (r: Context)
        ensures
            r@ == (ContextView { name: Some(name@), ..self@ }),
    {
        Context { name: Some(String::from_str(name)), ..self }
    }

    /// The name of the context, if it has one.
    pub fn name(&self) -> (r: Option<String>)
        ensures
            crate::namespace::mount::opt_view(r) == self@.name,
    {
        match &self.name {
            Some(n) => Some(n.clone()),
            None => None,
        }
    }

    /// Set the size of the child's stack, in bytes.
    pub fn stack_size(self, size: usize) -> (r: Context)
        ensures
            r@ == (ContextView { stack_size: size, ..self@ }),
    {
        Context { stack_size: size, ..self }
    }

    /// Add a namespace spec to the context.
    pub fn with<N: Namespace>(self, ns: N) -> (r: Context)
        ensures
            r@ == (ContextView { specs: self@.specs.push(ns.spec_of()), ..self@ }),
    {
        let mut c = self;
        c.push(ns);
        c
    }

    /// Push a namespace spec into the context.
    pub fn push<N: Namespace>(&mut self, ns: N)
        ensures
            final(self)@ == (ContextView { specs: old(self)@.specs.push(ns.spec_of()), ..old(self)@ }),
    {
        let s = ns.into_spec();
        self.namespaces.push(s);
    }

    /// The address-space sharing mode.
    pub fn share(&self) -> (r: Share)
        ensures
            r == self@.shared,
    {
        self.shared
    }

    /// The stack size asked for, in bytes.
    pub fn requested_stack_size(&self) -> (r: usize)
        ensures
            r == self@.stack_size,
    {
        self.stack_size
    }

    /// The number of namespace specs.
    pub fn len(&self) -> (r: usize)
        ensures
            r == self@.specs.len(),
    {
        self.namespaces.len()
    }

    /// The flags to hand to `clone` for this context.
    pub fn clone_flags(&self) -> (r: u32)
        ensures
            r == clone_flags_of(self@.specs, self@.shared),
    {
        let mut ns = false;
        let mut cgroup = false;
        let mut uts = false;
        let mut ipc = false;
        let mut user = false;
        let mut pid = false;
        let mut net = false;
        let n = self.namespaces.len();
        let mut i: usize = 0;
        while i < n
            invariant
                n == self.namespaces@.len(),
                i <= n,
                ns == requests(self.namespaces@.take(i as int), CLONE_NEWNS),
                cgroup == requests(self.namespaces@.take(i as int), CLONE_NEWCGROUP),
                uts == requests(self.namespaces@.take(i as int), CLONE_NEWUTS),
                ipc == requests(self.namespaces@.take(i as int), CLONE_NEWIPC),
                user == requests(self.namespaces@.take(i as int), CLONE_NEWUSER),
                pid == requests(self.namespaces@.take(i as int), CLONE_NEWPID),
                net == requests(self.namespaces@.take(i as int), CLONE_NEWNET),
            decreases n - i,
        {
            let f = self.namespaces[i].clone_flag();
            let ghost before = self.namespaces@.take(i as int);
            let ghost after = self.namespaces@.take(i + 1);
            assert(after =~= before.push(self.namespaces@[i as int]));
            match f {
                Some(b) => {
                    if b == CLONE_NEWNS {
                        ns = true;
                    } else if b == CLONE_NEWCGROUP {
                        cgroup = true;
                    } else if b == CLONE_NEWUTS {
                        uts = true;
                    } else if b == CLONE_NEWIPC {
                        ipc = true;
                    } else if b == CLONE_NEWUSER {
                        user = true;
                    } else if b == CLONE_NEWPID {
                        pid = true;
                    } else if b == CLONE_NEWNET {
                        net = true;
                    }
                },
                None => {},
            }
            proof {
                lemma_requests_push(before, self.namespaces@[i as int], CLONE_NEWNS);
                lemma_requests_push(before, self.namespaces@[i as int], CLONE_NEWCGROUP);
                lemma_requests_push(before, self.namespaces@[i as int], CLONE_NEWUTS);
                lemma_requests_push(before, self.namespaces@[i as int], CLONE_NEWIPC);
                lemma_requests_push(before, self.namespaces@[i as int], CLONE_NEWUSER);
                lemma_requests_push(before, self.namespaces@[i as int], CLONE_NEWPID);
                lemma_requests_push(before, self.namespaces@[i as int], CLONE_NEWNET);
            }
            i = i + 1;
        }
        assert(self.namespaces@.take(n as int) =~= self.namespaces@);
        let vm = match self.shared {
            Share::Shared => CLONE_VM,
            Share::Private => 0,
        };
        (if ns { CLONE_NEWNS } else { 0 }) | (if cgroup { CLONE_NEWCGROUP } else { 0 }) | (if uts {
            CLONE_NEWUTS
        } else {
            0
        }) | (if ipc { CLONE_NEWIPC } else { 0 }) | (if user { CLONE_NEWUSER } else { 0 }) | (if pid {
            CLONE_NEWPID
        } else {
            0
        }) | (if net { CLONE_NEWNET } else { 0 }) | vm | SIGCHLD
    }
}

impl Context {
    /// Prepare the host for spec `i` before the clone. No spec of this
    /// library needs the host changed, so this succeeds; it is idempotent.
    pub fn prepare_spec(&self, i: usize) -> (r: Result<(), Error>)
        requires
            i < self@.specs.len(),
        ensures
            r is Ok,
    {
        self.namespaces[i].prepare()
    }

    /// Split every spec, in insertion order, into its parent-side and
    /// child-side configurators.
    pub fn split(self) -> (r: (ContextOuter, ContextInner))
        ensures
            r.0@ == self@.specs.map_values(|s: Spec| s.external_of()),
            r.1@ == self@.specs.map_values(|s: Spec| s.internal_of()),
    {
        let mut outer: Vec<ExternalConfig> = Vec::new();
        let mut inner: Vec<InternalConfig> = Vec::new();
        let mut specs = self.namespaces;
        let ghost all = specs@;
        while specs.len() > 0
            invariant
                outer@.len() == inner@.len(),
                outer@.len() + specs@.len() == all.len(),
                specs@ == all.subrange(outer@.len() as int, all.len() as int),
                outer@ == all.take(outer@.len() as int).map_values(|s: Spec| s.external_of()),
                inner@ == all.take(outer@.len() as int).map_values(|s: Spec| s.internal_of()),
            decreases specs.len(),
        {
            let ghost k = outer@.len() as int;
            let s = specs.remove(0);
            let (e, i) = s.split();
            outer.push(e);
            inner.push(i);
            proof {
                assert(all.take(k + 1) =~= all.take(k).push(s));
                assert(outer@ =~= all.take(k + 1).map_values(|s: Spec| s.external_of()));
                assert(inner@ =~= all.take(k + 1).map_values(|s: Spec| s.internal_of()));
                assert(specs@ =~= all.subrange(k + 1, all.len() as int));
            }
        }
        assert(all.take(all.len() as int) =~= all);
        (ContextOuter { configs: outer }, ContextInner { configs: inner })
    }
}

/// The parent-side configurators of a context, in insertion order.
#[derive(Debug)]
pub struct ContextOuter {
    configs: Vec<ExternalConfig>,
}

/// The child-side configurators of a context, in insertion order.
#[derive(Debug)]
pub struct ContextInner {
    configs: Vec<InternalConfig>,
}

impl View for ContextOuter {
    type V = Seq<ExternalConfig>;

    closed spec fn view(&self) -> Seq<ExternalConfig> {
        self.configs@
    }
}

impl View for ContextInner {
    type V = Seq<InternalConfig>;

    closed spec fn view(&self) -> Seq<InternalConfig> {
        self.configs@
    }
}

impl ContextInner {
    /// The configurators, in insertion order.
    pub fn into_configs(self) -> (r: Vec<InternalConfig>)
        ensures
            r@ == self@,
    {
        self.configs
    }
}

/// The `/proc` writes of every configurator of `cs`, in order, for child
/// `pid` of a parent that runs as `uid` and `gid`.
pub open spec fn outer_writes(cs: Seq<ExternalConfig>, pid: nat, uid: nat, gid: nat) -> Seq<ProcWriteView>
    decreases cs.len(),
{
    if cs.len() == 0 {
        Seq::empty()
    } else {
        outer_writes(cs.drop_last(), pid, uid, gid) + cs.last().writes_spec(pid, uid, gid)
    }
}

impl ContextOuter {
    /// The `/proc` writes of every configurator, in insertion order, for
    /// child `pid` of a parent that runs as `uid` and `gid`.
    pub fn proc_writes(&self, pid: u32, uid: u32, gid: u32) -> (r: Vec<ProcWrite>)
        ensures
            r@.map_values(|w: ProcWrite| w@) == outer_writes(self@, pid as nat, uid as nat, gid as nat),
    {
        let mut r: Vec<ProcWrite> = Vec::new();
        let n = self.configs.len();
        let mut i: usize = 0;
        assert(r@.map_values(|w: ProcWrite| w@) =~= outer_writes(self@.take(0), pid as nat, uid as nat, gid as nat));
        while i < n
            invariant
                n == self@.len(),
                i <= n,
                r@.map_values(|w: ProcWrite| w@) == outer_writes(self@.take(i as int), pid as nat, uid as nat, gid as nat),
            decreases n - i,
        {
            let mut w = self.configs[i].proc_writes(pid, uid, gid);
            let ghost before = r@;
            let ghost added = w@;
            r.append(&mut w);
            proof {
                assert(self@.take(i + 1).drop_last() =~= self@.take(i as int));
                assert(r@.map_values(|w: ProcWrite| w@) =~= before.map_values(|w: ProcWrite| w@)
                    + added.map_values(|w: ProcWrite| w@));
            }
            i = i + 1;
        }
        assert(self@.take(n as int) =~= self@);
        r
    }
}

/// The parent denies `setgroups(2)` before it writes a group map: every
/// write of the root group map of child `pid` comes right after a write of
/// `deny` to its `setgroups` file.
pub proof fn law_setgroups_before_gid_map(cs: Seq<ExternalConfig>, pid: nat, uid: nat, gid: nat)
    ensures
        forall|j: int|
            0 <= j < outer_writes(cs, pid, uid, gid).len()
                && #[trigger] outer_writes(cs, pid, uid, gid)[j] == gid_map_write(pid, gid) ==> j >= 1
                && outer_writes(cs, pid, uid, gid)[j - 1] == setgroups_deny_write(pid),
    decreases cs.len(),
{
    if cs.len() > 0 {
        law_setgroups_before_gid_map(cs.drop_last(), pid, uid, gid);
        crate::namespace::user::lemma_map_paths_differ(pid);
        let a = outer_writes(cs.drop_last(), pid, uid, gid);
        let b = cs.last().writes_spec(pid, uid, gid);
        let w = outer_writes(cs, pid, uid, gid);
        assert(w == a + b);
        assert forall|j: int| 0 <= j < w.len() && #[trigger] w[j] == gid_map_write(pid, gid)
            implies j >= 1 && w[j - 1] == setgroups_deny_write(pid) by {
            if j < a.len() {
                assert(w[j] == a[j]);
                assert(w[j - 1] == a[j - 1]);
            } else {
                assert(w[j] == b[j - a.len()]);
                assert(w[j - 1] == b[j - a.len() - 1]);
            }
        }
    }
}

proof fn lemma_requests_push(s: Seq<Spec>, x: Spec, f: u32)
    ensures
        requests(s.push(x), f) == (requests(s, f) || x.bit() == Some(f)),
{
    if requests(s, f) {
        let i = choose|i: int| 0 <= i < s.len() && #[trigger] s[i].bit() == Some(f);
        assert(s.push(x)[i] == s[i]);
    }
    if x.bit() == Some(f) {
        assert(s.push(x)[s.len() as int] == x);
    }
    if requests(s.push(x), f) {
        let i = choose|i: int| 0 <= i < s.push(x).len() && #[trigger] s.push(x)[i].bit() == Some(f);
        if i < s.len() {
            assert(s.push(x)[i] == s[i]);
        }
    }
}

/// The clone flags do not depend on the order of the specs: two contexts
/// whose specs are the same up to order hand the same flags to `clone`.
pub proof fn law_clone_flags_ignore_order(a: Seq<Spec>, b: Seq<Spec>, shared: Share)
    requires
        a.to_multiset() =~= b.to_multiset(),
    ensures
        clone_flags_of(a, shared) == clone_flags_of(b, shared),
{
    assert forall|f: u32| requests(a, f) == requests(b, f) by {
        lemma_requests_contains(a, f);
        lemma_requests_contains(b, f);
        assert forall|x: Spec| a.contains(x) == b.contains(x) by {
            a.to_multiset_ensures();
            b.to_multiset_ensures();
            assert(a.to_multiset().count(x) == b.to_multiset().count(x));
        }
    }
}

/// An empty context asks for no new namespace: the child shares every
/// namespace of the parent, and its address space unless the context is
/// private.
pub proof fn law_empty_context_flags(shared: Share)
    ensures
        clone_flags_of(Seq::<Spec>::empty(), shared) == (if shared == Share::Shared {
            CLONE_VM | SIGCHLD
        } else {
            SIGCHLD
        }),
{
    let e = Seq::<Spec>::empty();
    assert(!requests(e, CLONE_NEWNS));
    assert(!requests(e, CLONE_NEWCGROUP));
    assert(!requests(e, CLONE_NEWUTS));
    assert(!requests(e, CLONE_NEWIPC));
    assert(!requests(e, CLONE_NEWUSER));
    assert(!requests(e, CLONE_NEWPID));
    assert(!requests(e, CLONE_NEWNET));
    assert(0u32 | 0u32 | 0u32 | 0u32 | 0u32 | 0u32 | 0u32 | 0x100u32 | 17u32 == 0x100u32 | 17u32) by (bit_vector);
    assert(0u32 | 0u32 | 0u32 | 0u32 | 0u32 | 0u32 | 0u32 | 0u32 | 17u32 == 17u32) by (bit_vector);
}

proof fn lemma_requests_contains(s: Seq<Spec>, f: u32)
    ensures
        requests(s, f) == exists|x: Spec| s.contains(x) && x.bit() == Some(f),
{
    if requests(s, f) {
        let i = choose|i: int| 0 <= i < s.len() && #[trigger] s[i].bit() == Some(f);
        assert(s.contains(s[i]));
    }
    if exists|x: Spec| s.contains(x) && x.bit() == Some(f) {
        let x = choose|x: Spec| s.contains(x) && x.bit() == Some(f);
        let i = choose|i: int| 0 <= i < s.len() && s[i] == x;
        assert(s[i].bit() == Some(f));
    }
}

/// The clone flags hold exactly the requested namespace bits, `CLONE_VM`
/// exactly where the address space is shared, and `SIGCHLD` as the signal in
/// the low byte.
pub proof fn law_clone_flags_bits(specs: Seq<Spec>, shared: Share)
    ensures
        clone_flags_of(specs, shared) & CLONE_NEWNS != 0 <==> requests(specs, CLONE_NEWNS),
        clone_flags_of(specs, shared) & CLONE_NEWCGROUP != 0 <==> requests(specs, CLONE_NEWCGROUP),
        clone_flags_of(specs, shared) & CLONE_NEWUTS != 0 <==> requests(specs, CLONE_NEWUTS),
        clone_flags_of(specs, shared) & CLONE_NEWIPC != 0 <==> requests(specs, CLONE_NEWIPC),
        clone_flags_of(specs, shared) & CLONE_NEWUSER != 0 <==> requests(specs, CLONE_NEWUSER),
        clone_flags_of(specs, shared) & CLONE_NEWPID != 0 <==> requests(specs, CLONE_NEWPID),
        clone_flags_of(specs, shared) & CLONE_NEWNET != 0 <==> requests(specs, CLONE_NEWNET),
        clone_flags_of(specs, shared) & CLONE_VM != 0 <==> shared == Share::Shared,
        clone_flags_of(specs, shared) & 0xff == SIGCHLD,
        clone_flags_of(specs, shared) & !(CLONE_NEWNS | CLONE_NEWCGROUP | CLONE_NEWUTS | CLONE_NEWIPC
            | CLONE_NEWUSER | CLONE_NEWPID | CLONE_NEWNET | CLONE_VM | 0xff) == 0,
{
    lemma_or_of_bits(
        requests(specs, CLONE_NEWNS),
        requests(specs, CLONE_NEWCGROUP),
        requests(specs, CLONE_NEWUTS),
        requests(specs, CLONE_NEWIPC),
        requests(specs, CLONE_NEWUSER),
        requests(specs, CLONE_NEWPID),
        requests(specs, CLONE_NEWNET),
        shared == Share::Shared,
    );
}

proof fn lemma_or_of_bits(a: bool, b: bool, c: bool, d: bool, e: bool, f: bool, g: bool, h: bool)
    ensures
        ({
            let x = bit_if(a, CLONE_NEWNS) | bit_if(b, CLONE_NEWCGROUP) | bit_if(c, CLONE_NEWUTS)
                | bit_if(d, CLONE_NEWIPC) | bit_if(e, CLONE_NEWUSER) | bit_if(f, CLONE_NEWPID)
                | bit_if(g, CLONE_NEWNET) | bit_if(h, CLONE_VM) | SIGCHLD;
            &&& (x & CLONE_NEWNS != 0 <==> a)
            &&& (x & CLONE_NEWCGROUP != 0 <==> b)
            &&& (x & CLONE_NEWUTS != 0 <==> c)
            &&& (x & CLONE_NEWIPC != 0 <==> d)
            &&& (x & CLONE_NEWUSER != 0 <==> e)
            &&& (x & CLONE_NEWPID != 0 <==> f)
            &&& (x & CLONE_NEWNET != 0 <==> g)
            &&& (x & CLONE_VM != 0 <==> h)
            &&& x & 0xff == SIGCHLD
            &&& x & !(CLONE_NEWNS | CLONE_NEWCGROUP | CLONE_NEWUTS | CLONE_NEWIPC | CLONE_NEWUSER
                | CLONE_NEWPID | CLONE_NEWNET | CLONE_VM | 0xff) == 0
        }),
{
    let x1: u32 = if a { 0x0002_0000 } else { 0 };
    let x2: u32 = if b { 0x0200_0000 } else { 0 };
    let x3: u32 = if c { 0x0400_0000 } else { 0 };
    let x4: u32 = if d { 0x0800_0000 } else { 0 };
    let x5: u32 = if e { 0x1000_0000 } else { 0 };
    let x6: u32 = if f { 0x2000_0000 } else { 0 };
    let x7: u32 = if g { 0x4000_0000 } else { 0 };
    let x8: u32 = if h { 0x100 } else { 0 };
    assert({
        let x = x1 | x2 | x3 | x4 | x5 | x6 | x7 | x8 | 17u32;
        &&& (x & 0x0002_0000 != 0 <==> x1 == 0x0002_0000)
        &&& (x & 0x0200_0000 != 0 <==> x2 == 0x0200_0000)
        &&& (x & 0x0400_0000 != 0 <==> x3 == 0x0400_0000)
        &&& (x & 0x0800_0000 != 0 <==> x4 == 0x0800_0000)
        &&& (x & 0x1000_0000 != 0 <==> x5 == 0x1000_0000)
        &&& (x & 0x2000_0000 != 0 <==> x6 == 0x2000_0000)
        &&& (x & 0x4000_0000 != 0 <==> x7 == 0x4000_0000)
        &&& (x & 0x100 != 0 <==> x8 == 0x100)
        &&& x & 0xff == 17
        &&& x & !(0x7e02_01ffu32) == 0
    }) by (bit_vector)
        requires
            x1 == 0 || x1 == 0x0002_0000,
            x2 == 0 || x2 == 0x0200_0000,
            x3 == 0 || x3 == 0x0400_0000,
            x4 == 0 || x4 == 0x0800_0000,
            x5 == 0 || x5 == 0x1000_0000,
            x6 == 0 || x6 == 0x2000_0000,
            x7 == 0 || x7 == 0x4000_0000,
            x8 == 0 || x8 == 0x100,
    ;
    assert((CLONE_NEWNS | CLONE_NEWCGROUP | CLONE_NEWUTS | CLONE_NEWIPC | CLONE_NEWUSER
        | CLONE_NEWPID | CLONE_NEWNET | CLONE_VM | 0xff) == 0x7e02_01ffu32) by (bit_vector);
}

} // verus!
