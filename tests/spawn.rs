use isolate::flags::{CLONE_NEWPID, CLONE_NEWUSER, CLONE_VM, SIGCHLD};
use isolate::namespace::{Pid, User};
use isolate::spawn::{SpawnAction, SpawnEvent, Spawner};
use isolate::stack::ENOMEM;
use isolate::{Context, Error, ProcWriteError};

const PAGE: usize = 4096;
const STACK: usize = 0x7f00_0000_0000;

fn clone_flags_of(a: &SpawnAction) -> u32 {
    match a {
        SpawnAction::Clone { flags, .. } => *flags,
        other => panic!("expected a clone, got {:?}", other),
    }
}

#[test]
fn empty_context_spawns_a_plain_shared_child() {
    let mut s = Spawner::new(Context::new(), PAGE, 1000, 100);
    let a = s.start();
    assert!(matches!(a, SpawnAction::MapStack { size, shared: true } if size == 8 * 1024 * 1024));
    let a = s.next(SpawnEvent::StackMapped(Ok(STACK)));
    assert_eq!(clone_flags_of(&a), CLONE_VM | SIGCHLD);
    let a = s.next(SpawnEvent::Cloned(Ok(77)));
    assert!(matches!(a, SpawnAction::WaitStopped(77)));
    let a = s.next(SpawnEvent::Stopped(Ok(())));
    assert!(matches!(a, SpawnAction::Continue(77)));
    match s.next(SpawnEvent::Continued(Ok(()))) {
        SpawnAction::Spawned(mut child) => {
            assert_eq!(child.pid(), 77);
            assert_eq!(child.wait(), Some(77));
            assert_eq!(child.wait(), None);
            let r = child.release();
            assert_eq!((r.reap, r.start, r.size), (None, STACK, 8 * 1024 * 1024));
        }
        other => panic!("expected a child, got {:?}", other),
    }
}

#[test]
fn private_context_maps_a_private_stack() {
    let mut s = Spawner::new(Context::new().private().stack_size(1), PAGE, 0, 0);
    assert!(matches!(s.start(), SpawnAction::MapStack { size: PAGE, shared: false }));
    assert_eq!(clone_flags_of(&s.next(SpawnEvent::StackMapped(Ok(STACK)))), SIGCHLD);
}

#[test]
fn user_maps_are_written_before_the_child_resumes() {
    let ctx = Context::new().with(User::new().map_root_user().map_root_group());
    let mut s = Spawner::new(ctx, PAGE, 1000, 100);
    assert!(matches!(s.start(), SpawnAction::Prepare(0)));
    assert!(s.prepare_spec(0).is_ok());
    assert!(matches!(s.next(SpawnEvent::Prepared(Ok(()))), SpawnAction::MapStack { .. }));
    let a = s.next(SpawnEvent::StackMapped(Ok(STACK)));
    assert_eq!(clone_flags_of(&a), CLONE_NEWUSER | CLONE_VM | SIGCHLD);
    let mut writes = Vec::new();
    let mut a = s.next(SpawnEvent::Cloned(Ok(4242)));
    while let SpawnAction::WriteProc(w) = a {
        writes.push((w.path, w.contents, w.append));
        a = s.next(SpawnEvent::Written(Ok(())));
    }
    assert_eq!(
        writes,
        vec![
            ("/proc/4242/uid_map".to_string(), "0 1000 1\n".to_string(), true),
            ("/proc/4242/setgroups".to_string(), "deny\n".to_string(), false),
            ("/proc/4242/gid_map".to_string(), "0 100 1\n".to_string(), true),
        ]
    );
    assert!(matches!(a, SpawnAction::WaitStopped(4242)));
    assert!(matches!(s.next(SpawnEvent::Stopped(Ok(()))), SpawnAction::Continue(4242)));
    let child = match s.next(SpawnEvent::Continued(Ok(()))) {
        SpawnAction::Spawned(c) => c,
        other => panic!("expected a child, got {:?}", other),
    };
    let r = child.release();
    assert_eq!((r.reap, r.start, r.size), (Some(4242), STACK, 8 * 1024 * 1024));
}

#[test]
fn pid_namespace_is_requested() {
    let mut s = Spawner::new(Context::new().with(Pid::new()), PAGE, 0, 0);
    assert!(matches!(s.start(), SpawnAction::Prepare(0)));
    s.next(SpawnEvent::Prepared(Ok(())));
    let a = s.next(SpawnEvent::StackMapped(Ok(STACK)));
    assert_eq!(clone_flags_of(&a), CLONE_NEWPID | CLONE_VM | SIGCHLD);
}

#[test]
fn prepare_error_ends_the_spawn_before_the_clone() {
    let mut s = Spawner::new(Context::new().with(Pid::new()).with(User::new()), PAGE, 0, 0);
    assert!(matches!(s.start(), SpawnAction::Prepare(0)));
    assert!(matches!(s.next(SpawnEvent::Prepared(Ok(()))), SpawnAction::Prepare(1)));
    let a = s.next(SpawnEvent::Prepared(Err(Error::PrepareFailed("host unsuitable".to_string()))));
    match a {
        SpawnAction::Failed(Error::PrepareFailed(m)) => assert_eq!(m, "host unsuitable"),
        other => panic!("expected the prepare error, got {:?}", other),
    }
}

#[test]
fn rejected_map_write_kills_reaps_and_unmaps() {
    let ctx = Context::new().with(User::new().map_root_user());
    let mut s = Spawner::new(ctx, PAGE, 1000, 100);
    s.start();
    s.next(SpawnEvent::Prepared(Ok(())));
    s.next(SpawnEvent::StackMapped(Ok(STACK)));
    assert!(matches!(s.next(SpawnEvent::Cloned(Ok(5))), SpawnAction::WriteProc(_)));
    assert!(matches!(s.next(SpawnEvent::Written(Err(ProcWriteError::Rejected))), SpawnAction::Kill(5)));
    assert!(matches!(s.next(SpawnEvent::Killed), SpawnAction::Reap(5)));
    let a = s.next(SpawnEvent::Reaped);
    assert!(matches!(a, SpawnAction::UnmapStack { start: STACK, size } if size == 8 * 1024 * 1024));
    let a = s.next(SpawnEvent::Unmapped);
    assert!(matches!(a, SpawnAction::Failed(Error::ProcWrite(ProcWriteError::Rejected))));
}

#[test]
fn failed_wait_or_resume_recovers_the_child() {
    let mut s = Spawner::new(Context::new(), PAGE, 0, 0);
    s.start();
    s.next(SpawnEvent::StackMapped(Ok(STACK)));
    s.next(SpawnEvent::Cloned(Ok(9)));
    assert!(matches!(s.next(SpawnEvent::Stopped(Err(10))), SpawnAction::Kill(9)));
    s.next(SpawnEvent::Killed);
    s.next(SpawnEvent::Reaped);
    assert!(matches!(s.next(SpawnEvent::Unmapped), SpawnAction::Failed(Error::ChildWait(10))));

    let mut s = Spawner::new(Context::new(), PAGE, 0, 0);
    s.start();
    s.next(SpawnEvent::StackMapped(Ok(STACK)));
    s.next(SpawnEvent::Cloned(Ok(9)));
    s.next(SpawnEvent::Stopped(Ok(())));
    assert!(matches!(s.next(SpawnEvent::Continued(Err(3))), SpawnAction::Kill(9)));
    s.next(SpawnEvent::Killed);
    s.next(SpawnEvent::Reaped);
    assert!(matches!(s.next(SpawnEvent::Unmapped), SpawnAction::Failed(Error::ChildContinue(3))));
}

#[test]
fn failed_clone_unmaps_the_stack() {
    let mut s = Spawner::new(Context::new(), PAGE, 0, 0);
    s.start();
    s.next(SpawnEvent::StackMapped(Ok(STACK)));
    let a = s.next(SpawnEvent::Cloned(Err(11)));
    assert!(matches!(a, SpawnAction::UnmapStack { start: STACK, .. }));
    assert!(matches!(s.next(SpawnEvent::Unmapped), SpawnAction::Failed(Error::Clone(11))));
}

#[test]
fn failed_mapping_ends_the_spawn() {
    let mut s = Spawner::new(Context::new(), PAGE, 0, 0);
    s.start();
    assert!(matches!(s.next(SpawnEvent::StackMapped(Err(12))), SpawnAction::Failed(Error::StackAllocation(12))));
    let mut s = Spawner::new(Context::new(), PAGE, 0, 0);
    s.start();
    assert!(matches!(s.next(SpawnEvent::StackMapped(Ok(0))), SpawnAction::Failed(Error::StackAllocation(0))));
}

#[test]
fn oversized_stack_fails_before_mapping() {
    let mut s = Spawner::new(Context::new().stack_size(usize::MAX), PAGE, 0, 0);
    assert!(matches!(s.start(), SpawnAction::Failed(Error::StackAllocation(e)) if e == ENOMEM));
}
