//! Parameters of the G.726 ADPCM codec.
use vstd::prelude::*;

use crate::error::SpanDspError;

verus! {

/// External coding type for G.726 interworking.
#[derive(Debug, Clone, Copy, PartialEq, Eq, Hash, Structural)]
pub enum G726Encoding {
    /// Interworking with 16-bit signed linear PCM.
    Linear,
    /// Interworking with u-law.
    ULaw,
    /// Interworking with A-law.
    ALaw,
}

impl G726Encoding {
    /// The native selector.
    pub fn as_raw(self) -> (r: i32)
        ensures
            r == (match self {
                G726Encoding::Linear => 0int,
                G726Encoding::ULaw => 1int,
                G726Encoding::ALaw => 2int,
            }),
    {
        match self {
            G726Encoding::Linear => 0,
            G726Encoding::ULaw => 1,
            G726Encoding::ALaw => 2,
        }
    }

    /// Human-readable name.
    pub fn name(self) -> (r: &'static str)
        ensures
            r == (match self {
                G726Encoding::Linear => "linear",
                G726Encoding::ULaw => "u-law",
                G726Encoding::ALaw => "A-law",
            }),
    {
        match self {
            G726Encoding::Linear => "linear",
            G726Encoding::ULaw => "u-law",
            G726Encoding::ALaw => "A-law",
        }
    }
}

/// G.726 bit packing mode.
#[derive(Debug, Clone, Copy, PartialEq, Eq, Hash, Structural)]
pub enum G726Packing {
    /// No packing.
    Unpacked,
    /// Left-justified packing.
    Left,
    /// Right-justified packing.
    Right,
}

impl Default for G726Packing {
    /// No packing.
    fn default() -> (r: G726Packing)
        ensures
            r == G726Packing::Unpacked,
    {
        G726Packing::Unpacked
    }
}

impl G726Packing {
    /// The native selector.
    pub fn as_raw(self) -> (r: i32)
        ensures
            r == (match self {
                G726Packing::Unpacked => 0int,
                G726Packing::Left => 1int,
                G726Packing::Right => 2int,
            }),
    {
        match self {
            G726Packing::Unpacked => 0,
            G726Packing::Left => 1,
            G726Packing::Right => 2,
        }
    }

    /// Human-readable name.
    pub fn name(self) -> (r: &'static str)
        ensures
            r == (match self {
                G726Packing::Unpacked => "none",
                G726Packing::Left => "left",
                G726Packing::Right => "right",
            }),
    {
        match self {
            G726Packing::Unpacked => "none",
            G726Packing::Left => "left",
            G726Packing::Right => "right",
        }
    }
}

/// Valid bit rates for G.726.
#[derive(Debug, Clone, Copy, PartialEq, Eq, Hash, Structural)]
pub enum G726Rate {
    /// 16 kbit/s (2 bits per sample).
    Rate16000,
    /// 24 kbit/s (3 bits per sample).
    Rate24000,
    /// 32 kbit/s (4 bits per sample).
    Rate32000,
    /// 40 kbit/s (5 bits per sample).
    Rate40000,
}

/// Bits per ADPCM sample at a G.726 rate.
pub open spec fn g726_bits(r: G726Rate) -> u8 {
    match r {
        G726Rate::Rate16000 => 2,
        G726Rate::Rate24000 => 3,
        G726Rate::Rate32000 => 4,
        G726Rate::Rate40000 => 5,
    }
}

/// Bit rate of a G.726 rate: 8000 samples per second at its sample width.
pub open spec fn g726_bps(r: G726Rate) -> u32 {
    (8000 * g726_bits(r)) as u32
}

impl G726Rate {
    /// The native rate selector (the bit rate).
    pub fn as_raw(self) -> (r: i32)
        ensures
            r == g726_bps(self),
    {
        match self {
            G726Rate::Rate16000 => 16000,
            G726Rate::Rate24000 => 24000,
            G726Rate::Rate32000 => 32000,
            G726Rate::Rate40000 => 40000,
        }
    }

    /// Returns the bit rate in bits per second.
    pub fn bps(self) -> (r: u32)
        ensures
            r == g726_bps(self),
    {
        self.as_raw() as u32
    }

    /// Returns the number of bits per ADPCM sample.
    pub fn bits_per_sample(self) -> (r: u8)
        ensures
            r == g726_bits(self),
    {
        match self {
            G726Rate::Rate16000 => 2,
            G726Rate::Rate24000 => 3,
            G726Rate::Rate32000 => 4,
            G726Rate::Rate40000 => 5,
        }
    }

    /// The rate of `bps` bits per second, if G.726 has one.
    pub fn from_bps(bps: u32) -> (r: Option<G726Rate>)
        ensures
            (bps == 16000 || bps == 24000 || bps == 32000 || bps == 40000) <==> r is Some,
            r matches Some(rate) ==> g726_bps(rate) == bps,
    {
        match bps {
            16000 => Some(G726Rate::Rate16000),
            24000 => Some(G726Rate::Rate24000),
            32000 => Some(G726Rate::Rate32000),
            40000 => Some(G726Rate::Rate40000),
            _ => None,
        }
    }

    /// Human-readable name.
    pub fn name(self) -> (r: &'static str)
        ensures
            r == (match self {
                G726Rate::Rate16000 => "16 kbit/s",
                G726Rate::Rate24000 => "24 kbit/s",
                G726Rate::Rate32000 => "32 kbit/s",
                G726Rate::Rate40000 => "40 kbit/s",
            }),
    {
        match self {
            G726Rate::Rate16000 => "16 kbit/s",
            G726Rate::Rate24000 => "24 kbit/s",
            G726Rate::Rate32000 => "32 kbit/s",
            G726Rate::Rate40000 => "40 kbit/s",
        }
    }
}

impl TryFrom<u32> for G726Rate {
    type Error = SpanDspError;

    fn try_from(bps: u32) -> (r: Result<G726Rate, SpanDspError>)
        ensures
            (bps == 16000 || bps == 24000 || bps == 32000 || bps == 40000) <==> r is Ok,
            r matches Ok(rate) ==> g726_bps(rate) == bps,
            r is Err ==> (r matches Err(SpanDspError::InvalidInput(_))),
    {
        match G726Rate::from_bps(bps) {
            Some(rate) => Ok(rate),
            None => Err(SpanDspError::InvalidInput(String::from_str("invalid G.726 rate"))),
        }
    }
}

/// The contract of `try_from` itself states the result; the error's text is
/// not part of it, so no single spec value is given here.
impl vstd::std_specs::convert::TryFromSpecImpl<u32> for G726Rate {
    open spec fn obeys_try_from_spec() -> bool {
        false
    }

    open spec fn try_from_spec(bps: u32) -> Result<G726Rate, SpanDspError> {
        arbitrary()
    }
}

} // verus!
