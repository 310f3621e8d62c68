//! Parameters of the line echo canceller.
use vstd::prelude::*;

verus! {

/// Adaption mode flags for the echo canceller.
#[derive(Debug, Clone, Copy, PartialEq, Eq, Hash, Structural)]
pub struct EchoCanFlags(pub i32);

impl EchoCanFlags {
    /// No flags.
    pub fn empty() -> (r: EchoCanFlags)
        ensures
            r.0 == 0,
    {
        EchoCanFlags(0)
    }

    /// Adapt the filter coefficients.
    pub fn adaption() -> (r: EchoCanFlags)
        ensures
            r.0 == 0x01,
    {
        EchoCanFlags(0x01)
    }

    /// Non-linear processing to suppress residual echo.
    pub fn nlp() -> (r: EchoCanFlags)
        ensures
            r.0 == 0x02,
    {
        EchoCanFlags(0x02)
    }

    /// Comfort noise generation.
    pub fn cng() -> (r: EchoCanFlags)
        ensures
            r.0 == 0x04,
    {
        EchoCanFlags(0x04)
    }

    /// Clip residual echo.
    pub fn clip() -> (r: EchoCanFlags)
        ensures
            r.0 == 0x08,
    {
        EchoCanFlags(0x08)
    }

    /// Echo suppression.
    pub fn suppressor() -> (r: EchoCanFlags)
        ensures
            r.0 == 0x10,
    {
        EchoCanFlags(0x10)
    }

    /// Transmit high-pass filter.
    pub fn tx_hpf() -> (r: EchoCanFlags)
        ensures
            r.0 == 0x20,
    {
        EchoCanFlags(0x20)
    }

    /// Receive high-pass filter.
    pub fn rx_hpf() -> (r: EchoCanFlags)
        ensures
            r.0 == 0x40,
    {
        EchoCanFlags(0x40)
    }

    /// Disable the canceller entirely.
    pub fn disable() -> (r: EchoCanFlags)
        ensures
            r.0 == 0x80,
    {
        EchoCanFlags(0x80)
    }

    /// Flags from raw bits.
    pub fn from_bits_retain(bits: i32) -> (r: EchoCanFlags)
        ensures
            r.0 == bits,
    {
        EchoCanFlags(bits)
    }

    /// The raw bits.
    pub fn bits(self) -> (r: i32)
        ensures
            r == self.0,
    {
        self.0
    }

    /// The flags of both.
    pub fn union(self, other: EchoCanFlags) -> (r: EchoCanFlags)
        ensures
            r.0 == self.0 | other.0,
    {
        EchoCanFlags(self.0 | other.0)
    }

    /// Whether every flag of `other` is set here.
    pub fn contains(self, other: EchoCanFlags) -> (r: bool)
        ensures
            r == (self.0 & other.0 == other.0),
    {
        self.0 & other.0 == other.0
    }

    /// Whether no flag is set.
    pub fn is_empty(self) -> (r: bool)
        ensures
            r == (self.0 == 0),
    {
        self.0 == 0
    }
}

impl core::ops::BitOr for EchoCanFlags {
    type Output = EchoCanFlags;

    fn bitor(self, rhs: EchoCanFlags) -> (r: EchoCanFlags) {
        EchoCanFlags(self.0 | rhs.0)
    }
}

impl vstd::std_specs::ops::BitOrSpecImpl for EchoCanFlags {
    open spec fn obeys_bitor_spec() -> bool {
        true
    }

    open spec fn bitor_req(self, rhs: EchoCanFlags) -> bool {
        true
    }

    open spec fn bitor_spec(self, rhs: EchoCanFlags) -> EchoCanFlags {
        EchoCanFlags(self.0 | rhs.0)
    }
}

impl Default for EchoCanFlags {
    /// Adaption and non-linear processing.
    fn default() -> (r: EchoCanFlags)
        ensures
            r.0 == 0x03,
    {
        EchoCanFlags(0x03)
    }
}
} // verus!
