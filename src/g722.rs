//! Parameters of the G.722 wideband codec.
use vstd::prelude::*;

use crate::error::SpanDspError;

verus! {

/// G.722 codec option flags.
#[derive(Debug, Clone, Copy, PartialEq, Eq, Hash, Structural)]
pub struct G722Options(pub i32);

impl G722Options {
    /// No flags.
    pub fn empty() -> (r: G722Options)
        ensures
            r.0 == 0,
    {
        G722Options(0)
    }

    /// Operate at 8000 samples/second (narrowband interworking mode).
    pub fn sample_rate_8000() -> (r: G722Options)
        ensures
            r.0 == 0x0001,
    {
        G722Options(0x0001)
    }

    /// Use packed bit ordering.
    pub fn packed() -> (r: G722Options)
        ensures
            r.0 == 0x0002,
    {
        G722Options(0x0002)
    }

    /// Flags from raw bits.
    pub fn from_bits_retain(bits: i32) -> (r: G722Options)
        ensures
            r.0 == bits,
    {
        G722Options(bits)
    }

    /// The raw bits.
    pub fn bits(self) -> (r: i32)
        ensures
            r == self.0,
    {
        self.0
    }

    /// The flags of both.
    pub fn union(self, other: G722Options) -> (r: G722Options)
        ensures
            r.0 == self.0 | other.0,
    {
        G722Options(self.0 | other.0)
    }

    /// Whether every flag of `other` is set here.
    pub fn contains(self, other: G722Options) -> (r: bool)
        ensures
            r == (self.0 & other.0 == other.0),
    {
        self.0 & other.0 == other.0
    }

    /// Whether no flag is set.
    pub fn is_empty(self) -> (r: bool)
        ensures
            r == (self.0 == 0),
    {
        self.0 == 0
    }
}

impl core::ops::BitOr for G722Options {
    type Output = G722Options;

    fn bitor(self, rhs: G722Options) -> (r: G722Options) {
        G722Options(self.0 | rhs.0)
    }
}

impl vstd::std_specs::ops::BitOrSpecImpl for G722Options {
    open spec fn obeys_bitor_spec() -> bool {
        true
    }

    open spec fn bitor_req(self, rhs: G722Options) -> bool {
        true
    }

    open spec fn bitor_spec(self, rhs: G722Options) -> G722Options {
        G722Options(self.0 | rhs.0)
    }
}

impl Default for G722Options {
    /// No options.
    fn default() -> (r: G722Options)
        ensures
            r.0 == 0,
    {
        G722Options(0)
    }
}

/// Valid bit rates for G.722.
#[derive(Debug, Clone, Copy, PartialEq, Eq, Hash, Structural)]
pub enum G722Rate {
    /// 64000 bits/s (mode 1).
    Rate64000,
    /// 56000 bits/s (mode 2).
    Rate56000,
    /// 48000 bits/s (mode 3).
    Rate48000,
}

/// Bit rate of a G.722 mode, in bits per second.
pub open spec fn g722_bps(r: G722Rate) -> u32 {
    match r {
        G722Rate::Rate64000 => 64000,
        G722Rate::Rate56000 => 56000,
        G722Rate::Rate48000 => 48000,
    }
}

impl G722Rate {
    /// The native rate selector (the bit rate).
    pub fn as_raw(self) -> (r: i32)
        ensures
            r == g722_bps(self),
    {
        match self {
            G722Rate::Rate64000 => 64000,
            G722Rate::Rate56000 => 56000,
            G722Rate::Rate48000 => 48000,
        }
    }

    /// Returns the bit rate in bits per second.
    pub fn bps(self) -> (r: u32)
        ensures
            r == g722_bps(self),
    {
        self.as_raw() as u32
    }

    /// The rate of `bps` bits per second, if G.722 has one.
    pub fn from_bps(bps: u32) -> (r: Option<G722Rate>)
        ensures
            (bps == 64000 || bps == 56000 || bps == 48000) <==> r is Some,
            r matches Some(rate) ==> g722_bps(rate) == bps,
    {
        match bps {
            64000 => Some(G722Rate::Rate64000),
            56000 => Some(G722Rate::Rate56000),
            48000 => Some(G722Rate::Rate48000),
            _ => None,
        }
    }

    /// Human-readable name of the rate.
    pub fn name(self) -> (r: &'static str)
        ensures
            r == g722_rate_name(self),
    {
        match self {
            G722Rate::Rate64000 => "64 kbit/s",
            G722Rate::Rate56000 => "56 kbit/s",
            G722Rate::Rate48000 => "48 kbit/s",
        }
    }
}

/// Name of a G.722 rate.
pub open spec fn g722_rate_name(r: G722Rate) -> &'static str {
    match r {
        G722Rate::Rate64000 => "64 kbit/s",
        G722Rate::Rate56000 => "56 kbit/s",
        G722Rate::Rate48000 => "48 kbit/s",
    }
}

impl TryFrom<u32> for G722Rate {
    type Error = SpanDspError;

    fn try_from(bps: u32) -> (r: Result<G722Rate, SpanDspError>)
        ensures
            (bps == 64000 || bps == 56000 || bps == 48000) <==> r is Ok,
            r matches Ok(rate) ==> g722_bps(rate) == bps,
            r is Err ==> (r matches Err(SpanDspError::InvalidInput(_))),
    {
        match G722Rate::from_bps(bps) {
            Some(rate) => Ok(rate),
            None => Err(SpanDspError::InvalidInput(String::from_str("invalid G.722 rate"))),
        }
    }
}

/// The contract of `try_from` itself states the result; the error's text is
/// not part of it, so no single spec value is given here.
impl vstd::std_specs::convert::TryFromSpecImpl<u32> for G722Rate {
    open spec fn obeys_try_from_spec() -> bool {
        false
    }

    open spec fn try_from_spec(bps: u32) -> Result<G722Rate, SpanDspError> {
        arbitrary()
    }
}

} // verus!
