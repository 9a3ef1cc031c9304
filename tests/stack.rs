use isolate::stack::{page_size, round_to_pages, Stack, ENOMEM};
use isolate::Error;

#[test]
fn sizes_round_up_to_whole_pages() {
    assert_eq!(round_to_pages(0, 4096).unwrap(), 4096);
    assert_eq!(round_to_pages(1, 4096).unwrap(), 4096);
    assert_eq!(round_to_pages(4095, 4096).unwrap(), 4096);
    assert_eq!(round_to_pages(4096, 4096).unwrap(), 4096);
    assert_eq!(round_to_pages(4097, 4096).unwrap(), 8192);
    assert_eq!(round_to_pages(8 * 1024 * 1024, 4096).unwrap(), 8 * 1024 * 1024);
    assert_eq!(round_to_pages(10, 3).unwrap(), 12);
}

#[test]
fn sizes_beyond_the_largest_mapping_fail() {
    assert!(matches!(
        round_to_pages(isize::MAX as usize + 1, 4096),
        Err(Error::StackAllocation(e)) if e == ENOMEM
    ));
    assert!(matches!(round_to_pages(usize::MAX, 4096), Err(Error::StackAllocation(_))));
    assert_eq!(round_to_pages(isize::MAX as usize, 1).unwrap(), isize::MAX as usize);
}

#[test]
fn the_system_has_a_page_size() {
    let p = page_size().unwrap();
    assert!(p > 0);
    assert_eq!(p as i64, sysconf_page_size());
}

fn sysconf_page_size() -> i64 {
    nix::unistd::sysconf(nix::unistd::SysconfVar::PAGE_SIZE).unwrap().unwrap() as i64
}

#[test]
fn sentinel_addresses_are_refused() {
    assert!(matches!(Stack::from_ptr(0, 4096), Err(Error::StackAllocation(0))));
    assert!(matches!(Stack::from_ptr(usize::MAX, 4096), Err(Error::StackAllocation(0))));
    let s = Stack::from_ptr(0x7000_0000, 8192).unwrap();
    assert_eq!((s.start(), s.size()), (0x7000_0000, 8192));
}
