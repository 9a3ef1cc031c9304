//! The user namespace and the identity maps that the parent writes for it.

use vstd::prelude::*;
use vstd::string::*;

verus! {

/// A user namespace.
///
/// Inside a new user namespace the child may act as root, with the rights
/// that its creator has outside. The parent can map the namespace's root
/// user and group to its own uid and gid.
#[derive(Debug)]
pub struct User {
    map_root_user: bool,
    map_root_group: bool,
}

impl User {
    /// Whether root inside the namespace is mapped to the parent's uid.
    pub closed spec fn maps_root_user(&self) -> bool {
        self.map_root_user
    }

    /// Whether root's group inside the namespace is mapped to the parent's gid.
    pub closed spec fn maps_root_group(&self) -> bool {
        self.map_root_group
    }

    /// Configure a new user namespace for creation, with no identity map.
    pub fn new() -> (r: User)
        ensures
            !r.maps_root_user(),
            !r.maps_root_group(),
    {
        User { map_root_user: false, map_root_group: false }
    }

    /// Map the root user to the creator of the namespace.
    pub fn map_root_user(self) -> (r: User)
        ensures
            r.maps_root_user(),
            r.maps_root_group() == self.maps_root_group(),
    {
        User { map_root_user: true, ..self }
    }

    /// Map the root group to the group of the creator of the namespace.
    pub fn map_root_group(self) -> (r: User)
        ensures
            r.maps_root_group(),
            r.maps_root_user() == self.maps_root_user(),
    {
        User { map_root_group: true, ..self }
    }
}

impl Default for User {
    /// A user namespace with no identity map.
    fn default() -> (r: User)
        ensures
            !r.maps_root_user(),
            !r.maps_root_group(),
    {
        User::new()
    }
}

/// The decimal digit `d`, for `d < 10`.
pub open spec fn digit_char(d: nat) -> char {
    if d == 0 { '0' }
    else if d == 1 { '1' }
    else if d == 2 { '2' }
    else if d == 3 { '3' }
    else if d == 4 { '4' }
    else if d == 5 { '5' }
    else if d == 6 { '6' }
    else if d == 7 { '7' }
    else if d == 8 { '8' }
    else { '9' }
}

/// `n` written in decimal, most significant digit first, with no leading zero.
pub open spec fn decimal(n: nat) -> Seq<char>
    decreases n,
{
    if n < 10 {
        seq![digit_char(n)]
    } else {
        decimal(n / 10) + seq![digit_char(n % 10)]
    }
}

fn digit_str(d: u32) -> (r: &'static str)
    requires
        d < 10,
    ensures
        r@ == seq![digit_char(d as nat)],
{
    proof {
        reveal_strlit("0");
        reveal_strlit("1");
        reveal_strlit("2");
        reveal_strlit("3");
        reveal_strlit("4");
        reveal_strlit("5");
        reveal_strlit("6");
        reveal_strlit("7");
        reveal_strlit("8");
        reveal_strlit("9");
    }
    if d == 0 { "0" }
    else if d == 1 { "1" }
    else if d == 2 { "2" }
    else if d == 3 { "3" }
    else if d == 4 { "4" }
    else if d == 5 { "5" }
    else if d == 6 { "6" }
    else if d == 7 { "7" }
    else if d == 8 { "8" }
    else { "9" }
}

/// Append `n` in decimal to `s`.
pub fn push_decimal(s: &mut String, n: u32)
    ensures
        final(s)@ == old(s)@ + decimal(n as nat),
    decreases n,
{
    if n >= 10 {
        push_decimal(s, n / 10);
    }
    s.append(digit_str(n % 10));
    assert(s@ =~= old(s)@ + decimal(n as nat));
}


/// A write that the parent makes to a file under `/proc/<pid>/`.
#[derive(Debug)]
pub struct ProcWrite {
    /// The file to write.
    pub path: String,
    /// The bytes to write, as text.
    pub contents: String,
    /// Open the file for appending rather than for overwriting.
    pub append: bool,
}

/// What a [`ProcWrite`] holds.
pub struct ProcWriteView {
    pub path: Seq<char>,
    pub contents: Seq<char>,
    pub append: bool,
}

impl View for ProcWrite {
    type V = ProcWriteView;

    open spec fn view(&self) -> ProcWriteView {
        ProcWriteView { path: self.path@, contents: self.contents@, append: self.append }
    }
}

/// `/proc/<pid>/<file>`.
pub open spec fn proc_path(pid: nat, file: Seq<char>) -> Seq<char> {
    "/proc/"@ + decimal(pid) + "/"@ + file
}

/// The one-line identity map `0 <id> 1`, ended by a line feed.
pub open spec fn root_map_line(id: nat) -> Seq<char> {
    "0 "@ + decimal(id) + " 1\n"@
}

/// Map root of the child's user namespace to the parent's `uid`.
pub open spec fn uid_map_write(pid: nat, uid: nat) -> ProcWriteView {
    ProcWriteView {
        path: proc_path(pid, "uid_map"@),
        contents: root_map_line(uid),
        append: true,
    }
}

/// Deny `setgroups(2)` in the child's user namespace.
pub open spec fn setgroups_deny_write(pid: nat) -> ProcWriteView {
    ProcWriteView { path: proc_path(pid, "setgroups"@), contents: "deny\n"@, append: false }
}

/// Map root's group of the child's user namespace to the parent's `gid`.
pub open spec fn gid_map_write(pid: nat, gid: nat) -> ProcWriteView {
    ProcWriteView {
        path: proc_path(pid, "gid_map"@),
        contents: root_map_line(gid),
        append: true,
    }
}

impl User {
    /// The writes that configure this namespace for child `pid`, in order,
    /// when the parent runs as `uid` and `gid`.
    pub open spec fn writes_spec(&self, pid: nat, uid: nat, gid: nat) -> Seq<ProcWriteView> {
        (if self.maps_root_user() {
            seq![uid_map_write(pid, uid)]
        } else {
            seq![]
        }) + (if self.maps_root_group() {
            seq![setgroups_deny_write(pid), gid_map_write(pid, gid)]
        } else {
            seq![]
        })
    }

    /// The writes that configure this namespace for child `pid`, in order,
    /// when the parent runs as `uid` and `gid`.
    pub fn proc_writes(&self, pid: u32, uid: u32, gid: u32) -> (r: Vec<ProcWrite>)
        ensures
            r@.map_values(|w: ProcWrite| w@) == self.writes_spec(pid as nat, uid as nat, gid as nat),
    {
        let mut r: Vec<ProcWrite> = Vec::new();
        if self.map_root_user {
            r.push(ProcWrite { path: proc_path_of(pid, "uid_map"), contents: root_map_line_of(uid), append: true });
        }
        if self.map_root_group {
            r.push(ProcWrite { path: proc_path_of(pid, "setgroups"), contents: String::from_str("deny\n"), append: false });
            r.push(ProcWrite { path: proc_path_of(pid, "gid_map"), contents: root_map_line_of(gid), append: true });
        }
        proof {
            reveal_strlit("uid_map");
            reveal_strlit("setgroups");
            reveal_strlit("gid_map");
            reveal_strlit("deny\n");
        }
        assert(r@.map_values(|w: ProcWrite| w@) =~= self.writes_spec(pid as nat, uid as nat, gid as nat));
        r
    }
}

/// The three `/proc` files of a child's identity maps have distinct paths.
pub proof fn lemma_map_paths_differ(pid: nat)
    ensures
        proc_path(pid, "uid_map"@) != proc_path(pid, "gid_map"@),
        proc_path(pid, "setgroups"@) != proc_path(pid, "gid_map"@),
{
    reveal_strlit("uid_map");
    reveal_strlit("gid_map");
    reveal_strlit("setgroups");
    let pre = "/proc/"@ + decimal(pid) + "/"@;
    let k = pre.len() as int;
    assert(proc_path(pid, "uid_map"@)[k] == 'u');
    assert(proc_path(pid, "gid_map"@)[k] == 'g');
    assert(proc_path(pid, "setgroups"@)[k] == 's');
}

fn proc_path_of(pid: u32, file: &str) -> (r: String)
    ensures
        r@ == proc_path(pid as nat, file@),
{
    let mut s = String::from_str("/proc/");
    push_decimal(&mut s, pid);
    s.append("/");
    s.append(file);
    s
}

fn root_map_line_of(id: u32) -> (r: String)
    ensures
        r@ == root_map_line(id as nat),
{
    let mut s = String::from_str("0 ");
    push_decimal(&mut s, id);
    s.append(" 1\n");
    s
}

} // verus!
