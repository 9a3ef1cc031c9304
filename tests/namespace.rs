use isolate::flags::{
    CLONE_NEWCGROUP, CLONE_NEWIPC, CLONE_NEWNET, CLONE_NEWNS, CLONE_NEWPID, CLONE_NEWUSER,
    CLONE_NEWUTS, MS_BIND, MS_DIRSYNC, MS_MANDLOCK, MS_MOVE, MS_NOATIME, MS_NODEV, MS_NODIRATIME,
    MS_NOEXEC, MS_NOSUID, MS_PRIVATE, MS_RDONLY, MS_REC, MS_RELATIME, MS_REMOUNT, MS_SHARED,
    MS_SILENT, MS_SLAVE, MS_STRICTATIME, MS_SYNCHRONOUS, MS_UNBINDABLE,
};
use isolate::namespace::mount::MountCall;
use isolate::namespace::{
    ControlGroup, EmptyMount, ExternalConfig, InternalConfig, Ipc, Mount, Namespace, Network, Pid,
    Spec, User, Uts,
};
use isolate::Error;

fn call(m: &Mount) -> MountCall {
    m.mount_call().expect("an unmounted spec with plain paths has a call")
}

#[test]
fn each_spec_contributes_its_clone_bit() {
    assert_eq!(ControlGroup::new().into_spec().clone_flag(), Some(CLONE_NEWCGROUP));
    assert_eq!(Ipc::new().into_spec().clone_flag(), Some(CLONE_NEWIPC));
    assert_eq!(Network::new().into_spec().clone_flag(), Some(CLONE_NEWNET));
    assert_eq!(Pid::new().into_spec().clone_flag(), Some(CLONE_NEWPID));
    assert_eq!(Uts::new().into_spec().clone_flag(), Some(CLONE_NEWUTS));
    assert_eq!(EmptyMount::new().into_spec().clone_flag(), Some(CLONE_NEWNS));
    assert_eq!(User::new().into_spec().clone_flag(), Some(CLONE_NEWUSER));
    assert_eq!(Mount::remount("/home").into_spec().clone_flag(), Some(CLONE_NEWNS));
}

#[test]
fn prepare_succeeds_for_every_builtin_spec() {
    assert!(Pid::new().into_spec().prepare().is_ok());
    assert!(User::new().into_spec().prepare().is_ok());
    assert!(Mount::bind("/a", "/b").into_spec().prepare().is_ok());
}

#[test]
fn split_gives_user_to_parent_and_mount_to_child() {
    let (e, i) = User::new().map_root_user().into_spec().split();
    assert!(matches!(e, ExternalConfig::User(_)));
    assert!(matches!(i, InternalConfig::Empty));
    let (e, i) = Mount::bind("/a", "/b").into_spec().split();
    assert!(matches!(e, ExternalConfig::Empty));
    assert!(matches!(i, InternalConfig::Mount(_)));
    let (e, i) = Pid::new().into_spec().split();
    assert!(matches!(e, ExternalConfig::Empty));
    assert!(matches!(i, InternalConfig::Empty));
}

#[test]
fn mount_factories_set_their_flags() {
    let c = call(&Mount::new("/dev/sda1", "/mnt", "ext4"));
    assert_eq!(c.source.as_deref(), Some("/dev/sda1"));
    assert_eq!(c.target, "/mnt");
    assert_eq!(c.fstype.as_deref(), Some("ext4"));
    assert_eq!(c.flags, 0);
    assert!(!c.make_target_dir);

    let c = call(&Mount::remount("/home"));
    assert_eq!((c.source, c.fstype, c.flags), (None, None, MS_REMOUNT));
    let c = call(&Mount::bind("/lib", "/jail/lib"));
    assert_eq!((c.source.as_deref(), c.fstype, c.flags), (Some("/lib"), None, MS_BIND));
    let c = call(&Mount::recursive_bind("/proc", "/jail/proc"));
    assert_eq!(c.flags, MS_BIND | MS_REC);
    assert_eq!(call(&Mount::shared("/x")).flags, MS_SHARED);
    assert_eq!(call(&Mount::private("/x")).flags, MS_PRIVATE);
    assert_eq!(call(&Mount::slave("/x")).flags, MS_SLAVE);
    assert_eq!(call(&Mount::unbindable("/x")).flags, MS_UNBINDABLE);
    let c = call(&Mount::relocate("/old", "/new"));
    assert_eq!((c.source.as_deref(), c.target.as_str(), c.flags), (Some("/old"), "/new", MS_MOVE));
}

#[test]
fn mount_modifiers_merge_one_flag_each() {
    let m = Mount::remount("/x")
        .as_bind()
        .synchronous_directories()
        .mandatory_locking()
        .no_access_time()
        .no_devices()
        .no_directory_access_time()
        .no_execute()
        .no_setuid()
        .read_only()
        .relative_access_time()
        .silent()
        .strict_access_time()
        .synchronous()
        .lazy_access_time();
    let all = MS_REMOUNT | MS_BIND | MS_DIRSYNC | MS_MANDLOCK | MS_NOATIME | MS_NODEV
        | MS_NODIRATIME | MS_NOEXEC | MS_NOSUID | MS_RDONLY | MS_RELATIME | MS_SILENT
        | MS_STRICTATIME | MS_SYNCHRONOUS;
    assert_eq!(call(&m).flags, all);
    assert_eq!(call(&Mount::bind("/a", "/b").read_only()).flags, MS_BIND | MS_RDONLY);
    assert_eq!(call(&Mount::bind("/a", "/b").as_bind()).flags, MS_BIND);
}

#[test]
fn make_target_dir_is_handed_to_the_call() {
    assert!(call(&Mount::bind("/a", "/b").make_target_dir()).make_target_dir);
}

#[test]
fn a_mounted_spec_does_not_mount_again() {
    let mut m = Mount::bind("/a", "/b");
    m.record_mount("/b".to_string());
    match m.mount_call() {
        Err(Error::Mount(_)) => {}
        other => panic!("expected a Mount error, got {:?}", other),
    }
    m.record_unmount();
    assert!(m.mount_call().is_ok());
}

#[test]
fn a_path_with_nul_is_refused() {
    assert!(matches!(Mount::bind("/a\0b", "/b").mount_call(), Err(Error::PathEncoding)));
    assert!(matches!(Mount::bind("/a", "/b\0").mount_call(), Err(Error::PathEncoding)));
    assert!(matches!(Mount::new("/a", "/b", "ext\04").mount_call(), Err(Error::PathEncoding)));
}

#[test]
fn unmount_target_only_where_asked_and_mounted() {
    let mut m = Mount::bind("/a", "/b").unmount_on_drop();
    assert_eq!(m.unmount_target(), None);
    m.record_mount("/real/b".to_string());
    assert_eq!(m.unmount_target().as_deref(), Some("/real/b"));
    let mut k = Mount::bind("/a", "/b");
    k.record_mount("/real/b".to_string());
    assert_eq!(k.unmount_target(), None);
    let mut u = Mount::bind("/a", "/b").unmount();
    u.record_mount("/c".to_string());
    assert_eq!(u.unmount_target().as_deref(), Some("/c"));
}

#[test]
fn user_writes_identity_maps() {
    let w = User::new().map_root_user().map_root_group().proc_writes(4242, 1000, 100);
    assert_eq!(w.len(), 3);
    assert_eq!(w[0].path, "/proc/4242/uid_map");
    assert_eq!(w[0].contents, "0 1000 1\n");
    assert!(w[0].append);
    assert_eq!(w[1].path, "/proc/4242/setgroups");
    assert_eq!(w[1].contents, "deny\n");
    assert!(!w[1].append);
    assert_eq!(w[2].path, "/proc/4242/gid_map");
    assert_eq!(w[2].contents, "0 100 1\n");
    assert!(w[2].append);
}

#[test]
fn user_without_maps_writes_nothing() {
    assert!(User::new().proc_writes(7, 0, 0).is_empty());
    let w = User::new().map_root_group().proc_writes(7, 0, 0);
    assert_eq!(w.len(), 2);
    assert_eq!(w[0].path, "/proc/7/setgroups");
    assert_eq!(w[1].path, "/proc/7/gid_map");
    assert_eq!(w[1].contents, "0 0 1\n");
}

#[test]
fn decimal_digits_are_written_in_order() {
    let mut s = String::from("x");
    isolate::namespace::user::push_decimal(&mut s, 4294967295);
    assert_eq!(s, "x4294967295");
    let mut z = String::new();
    isolate::namespace::user::push_decimal(&mut z, 0);
    assert_eq!(z, "0");
    let mut t = String::new();
    isolate::namespace::user::push_decimal(&mut t, 10);
    assert_eq!(t, "10");
}

#[test]
fn default_user_maps_nothing() {
    assert!(User::default().proc_writes(3, 5, 6).is_empty());
}
