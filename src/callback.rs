//! The callback bridge: which closure storage a native invocation reaches,
//! when that storage may be freed, and how raw native arguments become
//! checked values before a closure sees them.
use vstd::prelude::*;

use crate::error::{Result, SpanDspError};
use crate::handle::{release_of, NativeHandle};

verus! {

/// The closure storage registered with one native engine, identified by a
/// token, and the number of native invocations currently running.
pub struct CallbackSlot {
    current: Option<u64>,
    outstanding: u32,
}

impl CallbackSlot {
    /// The registration native invocations reach, if any.
    pub closed spec fn registration(&self) -> Option<u64> {
        self.current
    }

    /// How many native invocations are running.
    pub closed spec fn calls_outstanding(&self) -> nat {
        self.outstanding as nat
    }

    /// A slot with no registration.
    pub fn empty() -> (r: CallbackSlot)
        ensures
            r.registration() is None,
            r.calls_outstanding() == 0,
    {
        CallbackSlot { current: None, outstanding: 0 }
    }

    /// A slot holding registration `token`.
    pub fn registered(token: u64) -> (r: CallbackSlot)
        ensures
            r.registration() == Some(token),
            r.calls_outstanding() == 0,
    {
        CallbackSlot { current: Some(token), outstanding: 0 }
    }

    /// The registration native invocations reach, if any.
    pub fn current(&self) -> (r: Option<u64>)
        ensures
            r == self.registration(),
    {
        self.current
    }

    /// How many native invocations are running.
    pub fn outstanding(&self) -> (r: u32)
        ensures
            r == self.calls_outstanding(),
    {
        self.outstanding
    }

    /// A native invocation starts: the registration it dispatches to, or
    /// `None` when there is none and the invocation is a no-op.
    pub fn enter(&mut self) -> (r: Option<u64>)
        requires
            old(self).calls_outstanding() < u32::MAX,
        ensures
            r == old(self).registration(),
            final(self).registration() == old(self).registration(),
            final(self).calls_outstanding() == old(self).calls_outstanding() + 1,
    {
        self.outstanding = self.outstanding + 1;
        self.current
    }

    /// A native invocation has returned.
    pub fn leave(&mut self)
        requires
            old(self).calls_outstanding() > 0,
        ensures
            final(self).registration() == old(self).registration(),
            final(self).calls_outstanding() == old(self).calls_outstanding() - 1,
    {
        self.outstanding = self.outstanding - 1;
    }

    /// Replace the registration with `token`. While an invocation is running
    /// the replacement is refused and nothing changes; otherwise the prior
    /// registration, whose storage may now be freed, is handed back.
    pub fn replace(&mut self, token: u64) -> (r: Result<Option<u64>>)
        ensures
            old(self).calls_outstanding() > 0 ==> (r matches Err(SpanDspError::InvalidInput(_)))
                && final(self).registration() == old(self).registration()
                && final(self).calls_outstanding() == old(self).calls_outstanding(),
            old(self).calls_outstanding() == 0 ==> r == Ok::<Option<u64>, SpanDspError>(
                old(self).registration(),
            ) && final(self).registration() == Some(token) && final(self).calls_outstanding() == 0,
    {
        if self.outstanding > 0 {
            return Err(SpanDspError::InvalidInput(String::from_str("callback registration is in use")));
        }
        let prior = self.current;
        self.current = Some(token);
        Ok(prior)
    }
}

/// One release that tearing an engine down issues.
#[derive(Debug, Clone, Copy, PartialEq, Eq, Structural)]
pub enum Release {
    /// Release the native state at this address.
    Native(usize),
    /// Free the closure storage of this registration.
    Closure(u64),
}

/// The releases of an engine's teardown, in order: the native state first
/// (so no invocation can follow), the closure storage second.
pub open spec fn teardown_releases(h: NativeHandle, reg: Option<u64>) -> Seq<Release> {
    let native: Seq<Release> = match release_of(h) {
        Some(a) => seq![Release::Native(a)],
        None => Seq::empty(),
    };
    let closure: Seq<Release> = match reg {
        Some(t) => seq![Release::Closure(t)],
        None => Seq::empty(),
    };
    native + closure
}

/// A native engine: one handle and at most one callback registration,
/// torn down together.
pub struct Engine {
    handle: NativeHandle,
    callbacks: CallbackSlot,
}

impl Engine {
    /// The engine's handle.
    pub closed spec fn handle_spec(&self) -> NativeHandle {
        self.handle
    }

    /// The engine's callback slot.
    pub closed spec fn slot(&self) -> CallbackSlot {
        self.callbacks
    }

    /// Put a handle and its registration (if any) together.
    pub fn new(handle: NativeHandle, registration: Option<u64>) -> (r: Engine)
        ensures
            r.handle_spec() == handle,
            r.slot().registration() == registration,
            r.slot().calls_outstanding() == 0,
    {
        let callbacks = match registration {
            Some(t) => CallbackSlot::registered(t),
            None => CallbackSlot::empty(),
        };
        Engine { handle, callbacks }
    }

    /// The engine's handle.
    pub fn handle(&self) -> (r: &NativeHandle)
        ensures
            *r == self.handle_spec(),
    {
        &self.handle
    }

    /// The engine's callback slot.
    pub fn callbacks(&self) -> (r: &CallbackSlot)
        ensures
            *r == self.slot(),
    {
        &self.callbacks
    }

    /// The engine's callback slot, for invocations and replacement.
    pub fn callbacks_mut(&mut self) -> (r: &mut CallbackSlot)
        ensures
            *r == old(self).slot(),
            final(self).slot() == *final(r),
            final(self).handle_spec() == old(self).handle_spec(),
    {
        &mut self.callbacks
    }

    /// Tear the engine down between calls: the releases to issue, in order.
    pub fn teardown(self) -> (r: Vec<Release>)
        requires
            self.slot().calls_outstanding() == 0,
        ensures
            r@ == teardown_releases(self.handle_spec(), self.slot().registration()),
    {
        let mut steps: Vec<Release> = Vec::new();
        let reg = self.callbacks.current();
        let h = self.handle;
        let ghost hh = h;
        match h.release() {
            Some(a) => steps.push(Release::Native(a)),
            None => {},
        }
        match reg {
            Some(t) => steps.push(Release::Closure(t)),
            None => {},
        }
        assert(steps@ =~= teardown_releases(hh, reg));
        steps
    }
}

/// The length of the byte view made from a raw pointer and a length: empty
/// when the pointer is null or the length is not positive.
pub fn payload_len(present: bool, len: i32) -> (r: usize)
    ensures
        r == (if present && len > 0 { len as usize } else { 0usize }),
{
    if present && len > 0 {
        len as usize
    } else {
        0
    }
}

/// What a native frame event delivers to its handler: nothing when the
/// context is missing or the payload is empty (a guard against engines that
/// call back during their own teardown), and otherwise the payload.
pub fn frame_event<'a>(context_present: bool, payload: &'a [u8]) -> (r: Option<&'a [u8]>)
    ensures
        !context_present || payload@.len() == 0 ==> r is None,
        context_present && payload@.len() > 0 ==> r == Some(payload),
{
    if !context_present || payload.len() == 0 {
        None
    } else {
        Some(payload)
    }
}

/// The text spelled by a byte sequence read as UTF-8, or `None` when the
/// bytes are not well-formed UTF-8.
pub uninterp spec fn utf8_text(b: Seq<u8>) -> Option<Seq<char>>;

/// Relies on std::str::from_utf8: it accepts exactly the well-formed UTF-8
/// byte sequences, yielding the text they spell.
#[verifier::external_body]
pub(crate) fn utf8(b: &[u8]) -> (r: Option<String>)
    ensures
        r is Some <==> utf8_text(b@) is Some,
        r is Some ==> r->0@ == utf8_text(b@)->0,
        b@.len() == 0 ==> r is Some && r->0@.len() == 0,
{
    match std::str::from_utf8(b) {
        Ok(s) => Some(s.to_string()),
        Err(_) => None,
    }
}

/// What a native text event delivers to its closure: nothing when the
/// context is missing or the payload is empty (a guard against engines that
/// call back during their own teardown), nothing when the payload is not
/// valid text, and otherwise the text.
pub fn text_event(context_present: bool, payload: &[u8]) -> (r: Option<String>)
    ensures
        !context_present || payload@.len() == 0 ==> r is None,
        context_present && payload@.len() > 0 ==> (r is Some <==> utf8_text(payload@) is Some),
        r is Some ==> r->0@ == utf8_text(payload@)->0,
{
    if !context_present || payload.len() == 0 {
        return None;
    }
    utf8(payload)
}

} // verus!
