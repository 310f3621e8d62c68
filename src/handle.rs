//! Ownership-tagged handles to opaque native states.
//!
//! A handle names one native state by its (nonzero) address and records
//! whether it must release that state. A handle is never copied: it is moved
//! or lent, and `release` consumes it, so a release is decided at most once.
use vstd::prelude::*;

use crate::error::{Result, SpanDspError};

verus! {

/// Owns or borrows exactly one native state.
pub struct NativeHandle {
    addr: usize,
    owned: bool,
}

impl NativeHandle {
    /// Address of the native state.
    pub closed spec fn address(&self) -> usize {
        self.addr
    }

    /// Whether this handle must release the native state.
    pub closed spec fn owns(&self) -> bool {
        self.owned
    }

    /// Well-formed: the address is never null.
    pub closed spec fn wf(&self) -> bool {
        self.addr != 0
    }

    /// Wrap the state returned by a native initializer; a null state means
    /// the initializer failed.
    pub fn acquire(addr: usize) -> (r: Result<NativeHandle>)
        ensures
            addr == 0 <==> r is Err,
            addr == 0 ==> (r matches Err(SpanDspError::InitFailed)),
            r matches Ok(h) ==> h.wf() && h.address() == addr && h.owns(),
    {
        NativeHandle::from_raw(addr, true)
    }

    /// Wrap a state reached through a parent's accessor. The handle never
    /// releases it.
    pub fn borrow(addr: usize) -> (r: Result<NativeHandle>)
        ensures
            addr == 0 <==> r is Err,
            addr == 0 ==> (r matches Err(SpanDspError::InitFailed)),
            r matches Ok(h) ==> h.wf() && h.address() == addr && !h.owns(),
    {
        NativeHandle::from_raw(addr, false)
    }

    /// Wrap a native state with an explicit ownership tag.
    pub fn from_raw(addr: usize, owned: bool) -> (r: Result<NativeHandle>)
        ensures
            addr == 0 <==> r is Err,
            addr == 0 ==> (r matches Err(SpanDspError::InitFailed)),
            r matches Ok(h) ==> h.wf() && h.address() == addr && h.owns() == owned,
    {
        if addr == 0 {
            return Err(SpanDspError::InitFailed);
        }
        Ok(NativeHandle { addr, owned })
    }

    /// Address of the native state.
    pub fn addr(&self) -> (r: usize)
        ensures
            r == self.address(),
    {
        self.addr
    }

    /// Whether this handle must release the native state.
    pub fn is_owned(&self) -> (r: bool)
        ensures
            r == self.owns(),
    {
        self.owned
    }

    /// A borrowed handle to a state that lives inside this one, reached at
    /// `child_addr` through a native accessor.
    pub fn child(&self, child_addr: usize) -> (r: Result<NativeHandle>)
        ensures
            child_addr == 0 <==> r is Err,
            child_addr == 0 ==> (r matches Err(SpanDspError::InitFailed)),
            r matches Ok(h) ==> h.wf() && h.address() == child_addr && !h.owns(),
    {
        NativeHandle::borrow(child_addr)
    }

    /// Tear the handle down: the address to hand to the native release
    /// call, or `None` for a borrowed handle.
    pub fn release(self) -> (r: Option<usize>)
        ensures
            r == release_of(self),
    {
        if self.owned {
            Some(self.addr)
        } else {
            None
        }
    }
}

/// What tearing a handle down releases.
pub open spec fn release_of(h: NativeHandle) -> Option<usize> {
    if h.owns() {
        Some(h.address())
    } else {
        None
    }
}

/// The releases that tearing a handle down issues, as a sequence.
pub open spec fn releases_of(h: NativeHandle) -> Seq<usize> {
    if h.owns() {
        seq![h.address()]
    } else {
        Seq::empty()
    }
}

/// A recording stand-in for a native backend: it keeps every address
/// handed to its release call, in order.
pub struct ReleaseLog {
    freed: Vec<usize>,
}

impl ReleaseLog {
    /// The addresses released so far, in order.
    pub closed spec fn released(&self) -> Seq<usize> {
        self.freed@
    }

    /// An empty log.
    pub fn new() -> (r: ReleaseLog)
        ensures
            r.released() == Seq::<usize>::empty(),
    {
        ReleaseLog { freed: Vec::new() }
    }

    /// Tear `h` down against this backend.
    pub fn teardown(&mut self, h: NativeHandle)
        ensures
            final(self).released() == old(self).released() + releases_of(h),
    {
        match h.release() {
            Some(addr) => {
                self.freed.push(addr);
            },
            None => {},
        }
        assert(self.freed@ =~= old(self).freed@ + releases_of(h));
    }

    /// The addresses released so far, in order.
    pub fn freed(&self) -> (r: &Vec<usize>)
        ensures
            r@ == self.released(),
    {
        &self.freed
    }

    /// How many times `addr` was released.
    pub fn count(&self, addr: usize) -> (r: usize)
        ensures
            r == self.released().filter(|a: usize| a == addr).len(),
    {
        let mut n: usize = 0;
        let mut i: usize = 0;
        while i < self.freed.len()
            invariant
                i <= self.freed@.len(),
                n == self.freed@.subrange(0, i as int).filter(|a: usize| a == addr).len(),
                n <= i,
            decreases self.freed@.len() - i,
        {
            proof {
                reveal(Seq::filter);
                assert(self.freed@.subrange(0, i + 1).drop_last() =~= self.freed@.subrange(0, i as int));
            }
            if self.freed[i] == addr {
                n = n + 1;
            }
            i = i + 1;
        }
        assert(self.freed@.subrange(0, i as int) =~= self.freed@);
        n
    }
}

/// A borrowed child never releases; tearing down an owning parent and then
/// a child borrowed from it releases the parent's state once and nothing
/// else, so no address is released twice when the log held neither before.
pub proof fn parent_then_child_releases_once(
    log: Seq<usize>,
    parent: NativeHandle,
    child: NativeHandle,
)
    requires
        parent.owns(),
        !child.owns(),
        log.no_duplicates(),
        !log.contains(parent.address()),
    ensures
        releases_of(child) == Seq::<usize>::empty(),
        log + releases_of(parent) + releases_of(child) == log.push(parent.address()),
        (log + releases_of(parent) + releases_of(child)).no_duplicates(),
{
    assert(log + releases_of(parent) + releases_of(child) =~= log.push(parent.address()));
    let s = log.push(parent.address());
    assert forall|i: int, j: int| 0 <= i < s.len() && 0 <= j < s.len() && i != j implies s[i]
        != s[j] by {
        if i < log.len() && j < log.len() {
        } else if i == log.len() {
            assert(s[j] == log[j]);
            if s[i] == s[j] {
                assert(log.contains(parent.address()));
            }
        } else {
            assert(s[i] == log[i]);
            if s[i] == s[j] {
                assert(log.contains(parent.address()));
            }
        }
    }
}

} // verus!
