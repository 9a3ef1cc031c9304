use isolate::context::DEFAULT_STACK_SIZE;
use isolate::flags::{
    CLONE_NEWCGROUP, CLONE_NEWIPC, CLONE_NEWNET, CLONE_NEWNS, CLONE_NEWPID, CLONE_NEWUSER,
    CLONE_NEWUTS, CLONE_VM, SIGCHLD,
};
use isolate::namespace::{ControlGroup, EmptyMount, Ipc, Mount, Network, Pid, User, Uts};
use isolate::{Context, Share};

#[test]
fn new_context_is_empty_shared_with_default_stack() {
    let c = Context::new();
    assert_eq!(c.len(), 0);
    assert_eq!(c.share(), Share::Shared);
    assert_eq!(c.requested_stack_size(), 8 * 1024 * 1024);
    assert_eq!(DEFAULT_STACK_SIZE, 8 * 1024 * 1024);
}

#[test]
fn builder_sets_options() {
    let c = Context::new().private().stack_size(4096).with(Pid::new());
    assert_eq!(c.share(), Share::Private);
    assert_eq!(c.requested_stack_size(), 4096);
    assert_eq!(c.len(), 1);
    let mut d = Context::new();
    d.push(Uts::new());
    d.push(Ipc::new());
    assert_eq!(d.len(), 2);
}

#[test]
fn empty_context_shares_everything() {
    assert_eq!(Context::new().clone_flags(), CLONE_VM | SIGCHLD);
    assert_eq!(Context::new().private().clone_flags(), SIGCHLD);
}

#[test]
fn clone_flags_are_the_union_of_the_specs() {
    let c = Context::new()
        .with(User::new())
        .with(Pid::new())
        .with(ControlGroup::new())
        .with(Ipc::new())
        .with(Uts::new())
        .with(Network::new())
        .with(Mount::bind("/a", "/b"))
        .with(EmptyMount::new());
    let expected = CLONE_NEWUSER | CLONE_NEWPID | CLONE_NEWCGROUP | CLONE_NEWIPC | CLONE_NEWUTS
        | CLONE_NEWNET | CLONE_NEWNS | CLONE_VM | SIGCHLD;
    assert_eq!(c.clone_flags(), expected);
    assert_eq!(c.private().clone_flags(), expected & !CLONE_VM);
}

#[test]
fn clone_flags_ignore_the_order_of_specs() {
    let a = Context::new().with(Pid::new()).with(User::new()).with(EmptyMount::new());
    let b = Context::new().with(EmptyMount::new()).with(Pid::new()).with(User::new());
    assert_eq!(a.clone_flags(), b.clone_flags());
    assert_eq!(a.clone_flags(), CLONE_NEWPID | CLONE_NEWUSER | CLONE_NEWNS | CLONE_VM | SIGCHLD);
}

#[test]
fn pid_namespace_asks_for_a_new_pid_namespace() {
    assert_eq!(Context::new().with(Pid::new()).clone_flags(), CLONE_NEWPID | CLONE_VM | SIGCHLD);
}

#[test]
fn prepare_each_spec() {
    let c = Context::new().with(Pid::new()).with(User::new());
    assert!(c.prepare_spec(0).is_ok());
    assert!(c.prepare_spec(1).is_ok());
}

#[test]
fn outer_writes_follow_insertion_order() {
    let c = Context::new()
        .with(User::new().map_root_user())
        .with(Pid::new())
        .with(User::new().map_root_group());
    let (outer, _inner) = c.split();
    let w = outer.proc_writes(9, 1, 2);
    let paths: Vec<&str> = w.iter().map(|w| w.path.as_str()).collect();
    assert_eq!(paths, vec!["/proc/9/uid_map", "/proc/9/setgroups", "/proc/9/gid_map"]);
}

#[test]
fn context_may_be_named() {
    assert_eq!(Context::new().name(), None);
    let c = Context::new().with_name("jail").with(Pid::new());
    assert_eq!(c.name().as_deref(), Some("jail"));
    assert_eq!(c.len(), 1);
}
