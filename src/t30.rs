//! The T.30 fax protocol engine: modem capabilities, completion codes, and the engine's handle.
use vstd::prelude::*;
use crate::error::{Result, SpanDspError, T30Error};
use crate::handle::{release_of, NativeHandle};

verus! {

/// Supported modem types for T.30 negotiation.
#[derive(Debug, Clone, Copy, PartialEq, Eq, Hash, Structural)]
pub struct T30ModemSupport(pub i32);

impl T30ModemSupport {
    /// No flags.
    pub fn empty() -> (r: T30ModemSupport)
        ensures
            r.0 == 0,
    {
        T30ModemSupport(0)
    }

    /// V.27ter (2400/4800 bps).
    pub fn v27ter() -> (r: T30ModemSupport)
        ensures
            r.0 == 0x01,
    {
        T30ModemSupport(0x01)
    }

    /// V.29 (7200/9600 bps).
    pub fn v29() -> (r: T30ModemSupport)
        ensures
            r.0 == 0x02,
    {
        T30ModemSupport(0x02)
    }

    /// V.17 (7200-14400 bps).
    pub fn v17() -> (r: T30ModemSupport)
        ensures
            r.0 == 0x04,
    {
        T30ModemSupport(0x04)
    }

    /// V.34 half-duplex.
    pub fn v34hdx() -> (r: T30ModemSupport)
        ensures
            r.0 == 0x08,
    {
        T30ModemSupport(0x08)
    }

    /// Internet-Aware FAX (IAF).
    pub fn iaf() -> (r: T30ModemSupport)
        ensures
            r.0 == 0x10,
    {
        T30ModemSupport(0x10)
    }

    /// Flags from raw bits.
    pub fn from_bits_retain(bits: i32) -> (r: T30ModemSupport)
        ensures
            r.0 == bits,
    {
        T30ModemSupport(bits)
    }

    /// The raw bits.
    pub fn bits(self) -> (r: i32)
        ensures
            r == self.0,
    {
        self.0
    }

    /// The flags of both.
    pub fn union(self, other: T30ModemSupport) -> (r: T30ModemSupport)
        ensures
            r.0 == self.0 | other.0,
    {
        T30ModemSupport(self.0 | other.0)
    }

    /// Whether every flag of `other` is set here.
    pub fn contains(self, other: T30ModemSupport) -> (r: bool)
        ensures
            r == (self.0 & other.0 == other.0),
    {
        self.0 & other.0 == other.0
    }

    /// Whether no flag is set.
    pub fn is_empty(self) -> (r: bool)
        ensures
            r == (self.0 == 0),
    {
        self.0 == 0
    }
}

impl core::ops::BitOr for T30ModemSupport {
    type Output = T30ModemSupport;

    fn bitor(self, rhs: T30ModemSupport) -> (r: T30ModemSupport) {
        T30ModemSupport(self.0 | rhs.0)
    }
}

impl vstd::std_specs::ops::BitOrSpecImpl for T30ModemSupport {
    open spec fn obeys_bitor_spec() -> bool {
        true
    }

    open spec fn bitor_req(self, rhs: T30ModemSupport) -> bool {
        true
    }

    open spec fn bitor_spec(self, rhs: T30ModemSupport) -> T30ModemSupport {
        T30ModemSupport(self.0 | rhs.0)
    }
}

impl Default for T30ModemSupport {
    /// V.27ter, V.29 and V.17 (the standard fax modems).
    fn default() -> (r: T30ModemSupport)
        ensures
            r.0 == 0x07,
    {
        T30ModemSupport(0x07)
    }
}

/// The T.30 protocol engine, usually reached inside an owning fax session.
pub struct T30State {
    handle: NativeHandle,
}

impl T30State {
    /// The engine's handle.
    pub closed spec fn handle_spec(&self) -> NativeHandle {
        self.handle
    }

    /// Wrap the engine at `addr`; `owned` says whether this wrapper must
    /// release it.
    pub fn from_raw(addr: usize, owned: bool) -> (r: Result<T30State>)
        ensures
            addr == 0 <==> r is Err,
            addr == 0 ==> (r matches Err(SpanDspError::InitFailed)),
            r matches Ok(s) ==> s.handle_spec().address() == addr && s.handle_spec().owns() == owned,
    {
        let handle = NativeHandle::from_raw(addr, owned)?;
        Ok(T30State { handle })
    }

    /// The engine's handle.
    pub fn handle(&self) -> (r: &NativeHandle)
        ensures
            *r == self.handle_spec(),
    {
        &self.handle
    }

    /// Tear the wrapper down: the address to release, if it owns the engine.
    pub fn release(self) -> (r: Option<usize>)
        ensures
            r == release_of(self.handle_spec()),
    {
        self.handle.release()
    }

    /// The T.30 completion code with native value `code`, if it is a known one.
    pub fn completion_code(code: i32) -> (r: Option<T30Error>)
        ensures
            r == (if 0 <= code <= 61 {
                Some(T30Error(code as u32))
            } else {
                None::<T30Error>
            }),
    {
        if 0 <= code && code <= 61 {
            Some(T30Error(code as u32))
        } else {
            None
        }
    }
}

} // verus!
