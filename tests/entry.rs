use isolate::entry::{Entry, EntryAction, EntryEvent};
use isolate::flags::{MS_BIND, MS_REC};
use isolate::namespace::{EmptyMount, Mount, User};
use isolate::{Context, Error};

fn entry_of(ctx: Context) -> Entry {
    let (_outer, inner) = ctx.split();
    Entry::new(inner)
}

fn run_to_first_mount(e: &mut Entry) -> EntryAction {
    assert!(matches!(e.start(), EntryAction::InstallPanicHook));
    assert!(matches!(e.next(EntryEvent::Done), EntryAction::StopSelf));
    e.next(EntryEvent::Done)
}

#[test]
fn empty_context_runs_the_callable_and_exits() {
    let mut e = entry_of(Context::new());
    assert!(matches!(run_to_first_mount(&mut e), EntryAction::RunUser));
    assert!(matches!(e.next(EntryEvent::Done), EntryAction::Exit(0)));
}

#[test]
fn bind_proc_is_mounted_then_undone() {
    let ctx = Context::new()
        .with(User::new().map_root_user().map_root_group())
        .with(EmptyMount::new())
        .with(Mount::recursive_bind("/proc", "/tmp/jail/proc").make_target_dir().unmount_on_drop());
    let mut e = entry_of(ctx);
    match run_to_first_mount(&mut e) {
        EntryAction::Mount(c) => {
            assert_eq!(c.source.as_deref(), Some("/proc"));
            assert_eq!(c.target, "/tmp/jail/proc");
            assert_eq!(c.fstype, None);
            assert_eq!(c.flags, MS_BIND | MS_REC);
            assert!(c.make_target_dir);
        }
        other => panic!("expected a mount, got {:?}", other),
    }
    assert!(matches!(e.next(EntryEvent::Mounted("/tmp/jail/proc".to_string())), EntryAction::RunUser));
    match e.next(EntryEvent::Done) {
        EntryAction::Unmount(p) => assert_eq!(p, "/tmp/jail/proc"),
        other => panic!("expected an unmount, got {:?}", other),
    }
    assert!(matches!(e.next(EntryEvent::Done), EntryAction::Exit(0)));
}

#[test]
fn mount_without_unmount_stays() {
    let mut e = entry_of(Context::new().with(Mount::bind("/a", "/b")));
    assert!(matches!(run_to_first_mount(&mut e), EntryAction::Mount(_)));
    assert!(matches!(e.next(EntryEvent::Mounted("/b".to_string())), EntryAction::RunUser));
    assert!(matches!(e.next(EntryEvent::Done), EntryAction::Exit(0)));
}

#[test]
fn mounts_in_order_and_unmounts_in_reverse() {
    let ctx = Context::new()
        .with(Mount::bind("/a", "/x/a").unmount_on_drop())
        .with(Mount::bind("/b", "/x/b"))
        .with(Mount::bind("/c", "/x/c").unmount_on_drop());
    let mut e = entry_of(ctx);
    let mut targets = Vec::new();
    let mut a = run_to_first_mount(&mut e);
    while let EntryAction::Mount(c) = a {
        targets.push(c.target.clone());
        a = e.next(EntryEvent::Mounted(c.target));
    }
    assert_eq!(targets, vec!["/x/a", "/x/b", "/x/c"]);
    assert!(matches!(a, EntryAction::RunUser));
    let mut undone = Vec::new();
    let mut a = e.next(EntryEvent::Done);
    while let EntryAction::Unmount(p) = a {
        undone.push(p);
        a = e.next(EntryEvent::Done);
    }
    assert_eq!(undone, vec!["/x/c", "/x/a"]);
    assert!(matches!(a, EntryAction::Exit(0)));
}

#[test]
fn failed_mount_aborts_the_child() {
    let ctx = Context::new().with(Mount::new("/does/not/exist", "/tmp/t/x", "ext4").make_target_dir());
    let mut e = entry_of(ctx);
    assert!(matches!(run_to_first_mount(&mut e), EntryAction::Mount(_)));
    match e.next(EntryEvent::Failed) {
        EntryAction::Abort(Error::Mount(m)) => {
            let c = m.mount_call().unwrap();
            assert_eq!(c.source.as_deref(), Some("/does/not/exist"));
        }
        other => panic!("expected an abort, got {:?}", other),
    }
}

#[test]
fn failed_unmount_aborts_the_child() {
    let mut e = entry_of(Context::new().with(Mount::bind("/a", "/b").unmount_on_drop()));
    run_to_first_mount(&mut e);
    e.next(EntryEvent::Mounted("/b".to_string()));
    assert!(matches!(e.next(EntryEvent::Done), EntryAction::Unmount(_)));
    assert!(matches!(e.next(EntryEvent::Failed), EntryAction::Abort(Error::Mount(_))));
}

#[test]
fn already_mounted_spec_aborts_the_child() {
    let mut m = Mount::bind("/a", "/b");
    m.record_mount("/b".to_string());
    let mut e = entry_of(Context::new().with(m));
    assert!(matches!(run_to_first_mount(&mut e), EntryAction::Abort(Error::Mount(_))));
}
