//! Parameters of cadenced multi-tone generation.
use vstd::prelude::*;

verus! {

/// A frequency and level pair for tone generation: frequency in Hz (0 for
/// none, negative for AM modulation) and level in dBm0 (or modulation
/// depth in percent for AM).
#[derive(Debug, Clone, Copy, PartialEq, Eq, Hash, Structural)]
pub struct ToneFreq {
    pub frequency: i32,
    pub level: i32,
}

impl ToneFreq {
    /// Create a new tone component.
    pub fn new(frequency: i32, level: i32) -> (r: ToneFreq)
        ensures
            r.frequency == frequency,
            r.level == level,
    {
        ToneFreq { frequency, level }
    }

    /// No tone (frequency 0, level 0).
    pub fn none() -> (r: ToneFreq)
        ensures
            r.frequency == 0,
            r.level == 0,
    {
        ToneFreq { frequency: 0, level: 0 }
    }
}

impl Default for ToneFreq {
    /// No tone.
    fn default() -> (r: ToneFreq)
        ensures
            r.frequency == 0,
            r.level == 0,
    {
        ToneFreq::none()
    }
}

/// On/off cadence timing for tone generation, in milliseconds; 0 marks an
/// unused segment.
#[derive(Debug, Clone, Copy, PartialEq, Eq, Hash, Structural)]
pub struct ToneCadence {
    pub on1: i32,
    pub off1: i32,
    pub on2: i32,
    pub off2: i32,
}

impl ToneCadence {
    /// Create a cadence from four durations in milliseconds.
    pub fn new(on1: i32, off1: i32, on2: i32, off2: i32) -> (r: ToneCadence)
        ensures
            r == (ToneCadence { on1, off1, on2, off2 }),
    {
        ToneCadence { on1, off1, on2, off2 }
    }

    /// Simple on/off cadence (two segments).
    pub fn simple(on: i32, off: i32) -> (r: ToneCadence)
        ensures
            r == (ToneCadence { on1: on, off1: off, on2: 0, off2: 0 }),
    {
        ToneCadence { on1: on, off1: off, on2: 0, off2: 0 }
    }

    /// Continuous tone (a single on period).
    pub fn continuous(duration: i32) -> (r: ToneCadence)
        ensures
            r == (ToneCadence { on1: duration, off1: 0, on2: 0, off2: 0 }),
    {
        ToneCadence { on1: duration, off1: 0, on2: 0, off2: 0 }
    }

    /// Whether the second on/off pair is unused.
    pub fn is_two_segment(self) -> (r: bool)
        ensures
            r == (self.on2 == 0 && self.off2 == 0),
    {
        self.on2 == 0 && self.off2 == 0
    }
}

impl Default for ToneCadence {
    /// All segments unused.
    fn default() -> (r: ToneCadence)
        ensures
            r == (ToneCadence { on1: 0, off1: 0, on2: 0, off2: 0 }),
    {
        ToneCadence { on1: 0, off1: 0, on2: 0, off2: 0 }
    }
}

} // verus!
