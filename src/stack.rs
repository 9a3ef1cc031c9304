//! The child's stack: its size, rounded to whole pages, and the region that
//! the mapping call returned.

use vstd::prelude::*;
use crate::error::Error;

verus! {

/// `ENOMEM`: the errno of a stack that no mapping can hold.
pub const ENOMEM: i32 = 12;

/// The largest length of a mapping, `isize::MAX`; the largest address that
/// is not negative as a signed one.
pub open spec fn max_mapping() -> nat {
    isize::MAX as nat
}

/// The number of pages that a stack of `size` bytes takes: enough to hold
/// `size` bytes, and never none.
pub open spec fn pages_for(size: nat, page: nat) -> nat
    recommends
        page > 0,
{
    if size == 0 {
        1
    } else if size % page == 0 {
        size / page
    } else {
        size / page + 1
    }
}

/// The length of a stack asked for with `size` bytes.
pub open spec fn stack_len(size: nat, page: nat) -> nat {
    pages_for(size, page) * page
}

/// Relies on `nix::unistd::sysconf` for `PAGE_SIZE`: `Ok(Some(n))` with the
/// value that `sysconf(3)` gave (never -1), `Ok(None)` where it gave none,
/// and the errno where it failed. The value depends on the machine.
#[verifier::external_body]
fn sysconf_page_size() -> (r: Result<Option<i64>, i32>)
    ensures
        r matches Ok(Some(n)) ==> n != -1,
{
    match nix::unistd::sysconf(nix::unistd::SysconfVar::PAGE_SIZE) {
        Ok(v) => Ok(v.map(|n| n as i64)),
        Err(e) => Err(e as i32),
    }
}

/// The page size of the system.
///
/// Fails with `StackAllocation` where the system gives none that a stack
/// can be measured in: no value or a value that is not positive (errno 0),
/// or an error (its errno).
pub fn page_size() -> (r: Result<usize, Error>)
    ensures
        r matches Ok(p) ==> 0 < p <= isize::MAX,
{
    match sysconf_page_size() {
        Ok(Some(n)) => {
            if n > 0 && n <= isize::MAX as i64 {
                Ok(n as usize)
            } else {
                Err(Error::StackAllocation(0))
            }
        },
        Ok(None) => Err(Error::StackAllocation(0)),
        Err(e) => Err(Error::StackAllocation(e)),
    }
}

/// The length of a stack asked for with `size` bytes, on pages of `page`
/// bytes: `size` rounded up to whole pages, and one page where `size` is 0.
///
/// Fails with `StackAllocation(ENOMEM)` where that length exceeds
/// `isize::MAX`, the largest mapping there is.
pub fn round_to_pages(size: usize, page: usize) -> (r: Result<usize, Error>)
    requires
        page > 0,
    ensures
        stack_len(size as nat, page as nat) <= max_mapping() ==> r == Ok::<usize, Error>(
            stack_len(size as nat, page as nat) as usize,
        ),
        stack_len(size as nat, page as nat) > max_mapping() ==> r == Err::<usize, Error>(
            Error::StackAllocation(ENOMEM),
        ),
{
    let pages: usize = if size == 0 {
        1
    } else if size % page == 0 {
        size / page
    } else {
        proof {
            if page == 1 {
                assert(size % 1 == 0);
            }
            vstd::arithmetic::div_mod::lemma_div_decreases(size as int, page as int);
        }
        size / page + 1
    };
    assert(pages == pages_for(size as nat, page as nat));
    if pages > (isize::MAX as usize) / page {
        proof {
            let q = isize::MAX as int / page as int;
            assert(pages as int >= q + 1);
            assert((isize::MAX as int) < (q + 1) * page as int) by (nonlinear_arith)
                requires
                    q == isize::MAX as int / page as int,
                    page > 0,
            ;
            assert((q + 1) * page as int <= pages as int * page as int) by (nonlinear_arith)
                requires
                    pages as int >= q + 1,
                    page > 0,
            ;
        }
        Err(Error::StackAllocation(ENOMEM))
    } else {
        proof {
            let q = isize::MAX as int / page as int;
            assert(q * page as int <= isize::MAX as int) by (nonlinear_arith)
                requires
                    q == isize::MAX as int / page as int,
                    page > 0,
            ;
            assert(pages as int * page as int <= q * page as int) by (nonlinear_arith)
                requires
                    pages as int <= q,
                    page > 0,
            ;
        }
        Ok(pages * page)
    }
}

/// A stack length is a whole number of pages, holds what was asked for, is
/// never empty, and wastes less than a page: it is the least multiple of
/// the page size that is at least `size` and at least one page.
pub proof fn law_stack_len(size: nat, page: nat)
    requires
        page > 0,
    ensures
        stack_len(size, page) % page == 0,
        stack_len(size, page) >= size,
        stack_len(size, page) >= page,
        size <= page ==> stack_len(size, page) == page,
        size > 0 ==> stack_len(size, page) < size + page,
{
    let p = pages_for(size, page);
    vstd::arithmetic::div_mod::lemma_mod_multiples_basic(p as int, page as int);
    if size == 0 {
        assert(p * page == page);
    } else {
        let q = size / page;
        let m = size % page;
        vstd::arithmetic::div_mod::lemma_fundamental_div_mod(size as int, page as int);
        assert(size == page * q + m);
        assert(0 <= m < page);
        if m == 0 {
            assert(p == q);
            assert(q >= 1) by (nonlinear_arith)
                requires
                    size == page * q,
                    size > 0,
                    page > 0,
            ;
            assert(p * page == size) by (nonlinear_arith)
                requires
                    p == q,
                    size == page * q,
            ;
            assert(p * page >= page) by (nonlinear_arith)
                requires
                    p >= 1,
            ;
        } else {
            assert(p == q + 1);
            assert(p * page == page * q + page) by (nonlinear_arith)
                requires
                    p == q + 1,
            ;
            assert(page * q >= 0) by (nonlinear_arith)
                requires
                    q >= 0,
                    page > 0,
            ;
        }
        if size <= page {
            if size == page {
                vstd::arithmetic::div_mod::lemma_div_by_self(page as int);
                vstd::arithmetic::div_mod::lemma_mod_self_0(page as int);
            } else {
                vstd::arithmetic::div_mod::lemma_small_mod(size, page);
                vstd::arithmetic::div_mod::lemma_basic_div(size as int, page as int);
            }
        }
    }
}

/// The stack region that the mapping call returned.
#[derive(Debug)]
pub struct Stack {
    start: usize,
    size: usize,
}

impl Stack {
    /// The first address of the region.
    pub closed spec fn start_spec(&self) -> usize {
        self.start
    }

    /// The length of the region.
    pub closed spec fn size_spec(&self) -> usize {
        self.size
    }

    /// Take the address that the mapping call returned for `size` bytes.
    ///
    /// Fails with `StackAllocation` where the address is a sentinel: null, or
    /// negative as a signed address (as -1 is).
    pub fn from_ptr(addr: usize, size: usize) -> (r: Result<Stack, Error>)
        ensures
            (addr == 0 || addr > isize::MAX as usize) ==> r == Err::<Stack, Error>(Error::StackAllocation(0)),
            !(addr == 0 || addr > isize::MAX as usize) ==> (r matches Ok(s) && s.start_spec() == addr
                && s.size_spec() == size),
    {
        if addr == 0 || addr > isize::MAX as usize {
            Err(Error::StackAllocation(0))
        } else {
            Ok(Stack { start: addr, size })
        }
    }

    /// The first address of the region.
    pub fn start(&self) -> (r: usize)
        ensures
            r == self.start_spec(),
    {
        self.start
    }

    /// The length of the region.
    pub fn size(&self) -> (r: usize)
        ensures
            r == self.size_spec(),
    {
        self.size
    }
}

} // verus!
