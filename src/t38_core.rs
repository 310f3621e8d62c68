//! Vocabulary of the T.38 fax-over-IP core: indicators, data and field types, packet categories and options.
use vstd::prelude::*;

verus! {

/// T.38 indicator (the native `t30_indicator_types_e` value).
#[derive(Debug, Clone, Copy, PartialEq, Eq, Hash, Structural)]
pub struct T38Indicator(pub u32);

/// Name of a native T38Indicator value.
pub open spec fn t38_indicator_name(v: u32) -> &'static str {
    match v {
        0u32 => "no-signal",
        1u32 => "CNG",
        2u32 => "CED",
        3u32 => "V.21-preamble",
        4u32 => "V.27ter-2400-training",
        5u32 => "V.27ter-4800-training",
        6u32 => "V.29-7200-training",
        7u32 => "V.29-9600-training",
        8u32 => "V.17-7200-short",
        9u32 => "V.17-7200-long",
        10u32 => "V.17-9600-short",
        11u32 => "V.17-9600-long",
        12u32 => "V.17-12000-short",
        13u32 => "V.17-12000-long",
        14u32 => "V.17-14400-short",
        15u32 => "V.17-14400-long",
        16u32 => "V.8-ansam",
        17u32 => "V.8-signal",
        18u32 => "V.34-cc-1200",
        19u32 => "V.34-pri-channel",
        20u32 => "V.34-cc-retrain",
        21u32 => "V.33-12000-training",
        22u32 => "V.33-14400-training",
        _ => "unknown",
    }
}

impl T38Indicator {
    /// No signal present.
    pub fn no_signal() -> (r: T38Indicator)
        ensures
            r.0 == 0,
    {
        T38Indicator(0)
    }

    /// CNG (calling) tone detected.
    pub fn cng() -> (r: T38Indicator)
        ensures
            r.0 == 1,
    {
        T38Indicator(1)
    }

    /// CED (called) tone detected.
    pub fn ced() -> (r: T38Indicator)
        ensures
            r.0 == 2,
    {
        T38Indicator(2)
    }

    /// V.21 preamble flags detected.
    pub fn v21_preamble() -> (r: T38Indicator)
        ensures
            r.0 == 3,
    {
        T38Indicator(3)
    }

    /// The native value.
    pub fn raw(self) -> (r: u32)
        ensures
            r == self.0,
    {
        self.0
    }

    /// Human-readable name.
    pub fn name(self) -> (r: &'static str)
        ensures
            r == t38_indicator_name(self.0),
    {
        match self.0 {
            0 => "no-signal",
            1 => "CNG",
            2 => "CED",
            3 => "V.21-preamble",
            4 => "V.27ter-2400-training",
            5 => "V.27ter-4800-training",
            6 => "V.29-7200-training",
            7 => "V.29-9600-training",
            8 => "V.17-7200-short",
            9 => "V.17-7200-long",
            10 => "V.17-9600-short",
            11 => "V.17-9600-long",
            12 => "V.17-12000-short",
            13 => "V.17-12000-long",
            14 => "V.17-14400-short",
            15 => "V.17-14400-long",
            16 => "V.8-ansam",
            17 => "V.8-signal",
            18 => "V.34-cc-1200",
            19 => "V.34-pri-channel",
            20 => "V.34-cc-retrain",
            21 => "V.33-12000-training",
            22 => "V.33-14400-training",
            _ => "unknown",
        }
    }
}

/// T.38 data type (the native `t38_data_types_e` value).
#[derive(Debug, Clone, Copy, PartialEq, Eq, Hash, Structural)]
pub struct T38DataType(pub i32);

/// Name of a native T38DataType value.
pub open spec fn t38_data_type_name(v: i32) -> &'static str {
    match v {
        -1i32 => "none",
        0i32 => "V.21",
        1i32 => "V.27ter-2400",
        2i32 => "V.27ter-4800",
        3i32 => "V.29-7200",
        4i32 => "V.29-9600",
        5i32 => "V.17-7200",
        6i32 => "V.17-9600",
        7i32 => "V.17-12000",
        8i32 => "V.17-14400",
        9i32 => "V.8",
        10i32 => "V.34-pri-rate",
        11i32 => "V.34-cc-1200",
        12i32 => "V.34-pri-ch",
        13i32 => "V.33-12000",
        14i32 => "V.33-14400",
        _ => "unknown",
    }
}

impl T38DataType {
    /// V.21 (300 bps) HDLC signalling.
    pub fn v21() -> (r: T38DataType)
        ensures
            r.0 == 0,
    {
        T38DataType(0)
    }

    /// V.27ter at 2400 bps.
    pub fn v27ter_2400() -> (r: T38DataType)
        ensures
            r.0 == 1,
    {
        T38DataType(1)
    }

    /// V.27ter at 4800 bps.
    pub fn v27ter_4800() -> (r: T38DataType)
        ensures
            r.0 == 2,
    {
        T38DataType(2)
    }

    /// V.29 at 7200 bps.
    pub fn v29_7200() -> (r: T38DataType)
        ensures
            r.0 == 3,
    {
        T38DataType(3)
    }

    /// V.29 at 9600 bps.
    pub fn v29_9600() -> (r: T38DataType)
        ensures
            r.0 == 4,
    {
        T38DataType(4)
    }

    /// V.17 at 7200 bps.
    pub fn v17_7200() -> (r: T38DataType)
        ensures
            r.0 == 5,
    {
        T38DataType(5)
    }

    /// V.17 at 9600 bps.
    pub fn v17_9600() -> (r: T38DataType)
        ensures
            r.0 == 6,
    {
        T38DataType(6)
    }

    /// V.17 at 12000 bps.
    pub fn v17_12000() -> (r: T38DataType)
        ensures
            r.0 == 7,
    {
        T38DataType(7)
    }

    /// V.17 at 14400 bps.
    pub fn v17_14400() -> (r: T38DataType)
        ensures
            r.0 == 8,
    {
        T38DataType(8)
    }

    /// The native value.
    pub fn raw(self) -> (r: i32)
        ensures
            r == self.0,
    {
        self.0
    }

    /// Human-readable name.
    pub fn name(self) -> (r: &'static str)
        ensures
            r == t38_data_type_name(self.0),
    {
        match self.0 {
            -1 => "none",
            0 => "V.21",
            1 => "V.27ter-2400",
            2 => "V.27ter-4800",
            3 => "V.29-7200",
            4 => "V.29-9600",
            5 => "V.17-7200",
            6 => "V.17-9600",
            7 => "V.17-12000",
            8 => "V.17-14400",
            9 => "V.8",
            10 => "V.34-pri-rate",
            11 => "V.34-cc-1200",
            12 => "V.34-pri-ch",
            13 => "V.33-12000",
            14 => "V.33-14400",
            _ => "unknown",
        }
    }
}

/// T.38 data field type (the native `t38_field_types_e` value).
#[derive(Debug, Clone, Copy, PartialEq, Eq, Hash, Structural)]
pub struct T38FieldType(pub u32);

/// Name of a native T38FieldType value.
pub open spec fn t38_field_type_name(v: u32) -> &'static str {
    match v {
        0u32 => "HDLC-data",
        1u32 => "HDLC-sig-end",
        2u32 => "HDLC-FCS-OK",
        3u32 => "HDLC-FCS-bad",
        4u32 => "HDLC-FCS-OK-sig-end",
        5u32 => "HDLC-FCS-bad-sig-end",
        6u32 => "T4-non-ECM-data",
        7u32 => "T4-non-ECM-sig-end",
        8u32 => "CM-message",
        9u32 => "JM-message",
        10u32 => "CI-message",
        11u32 => "V34-rate",
        _ => "unknown",
    }
}

impl T38FieldType {
    /// HDLC data field.
    pub fn hdlc_data() -> (r: T38FieldType)
        ensures
            r.0 == 0,
    {
        T38FieldType(0)
    }

    /// End of HDLC signal.
    pub fn hdlc_sig_end() -> (r: T38FieldType)
        ensures
            r.0 == 1,
    {
        T38FieldType(1)
    }

    /// HDLC frame with correct FCS.
    pub fn hdlc_fcs_ok() -> (r: T38FieldType)
        ensures
            r.0 == 2,
    {
        T38FieldType(2)
    }

    /// HDLC frame with bad FCS.
    pub fn hdlc_fcs_bad() -> (r: T38FieldType)
        ensures
            r.0 == 3,
    {
        T38FieldType(3)
    }

    /// T.4 non-ECM image data.
    pub fn t4_non_ecm_data() -> (r: T38FieldType)
        ensures
            r.0 == 6,
    {
        T38FieldType(6)
    }

    /// End of T.4 non-ECM signal.
    pub fn t4_non_ecm_sig_end() -> (r: T38FieldType)
        ensures
            r.0 == 7,
    {
        T38FieldType(7)
    }

    /// The native value.
    pub fn raw(self) -> (r: u32)
        ensures
            r == self.0,
    {
        self.0
    }

    /// Human-readable name.
    pub fn name(self) -> (r: &'static str)
        ensures
            r == t38_field_type_name(self.0),
    {
        match self.0 {
            0 => "HDLC-data",
            1 => "HDLC-sig-end",
            2 => "HDLC-FCS-OK",
            3 => "HDLC-FCS-bad",
            4 => "HDLC-FCS-OK-sig-end",
            5 => "HDLC-FCS-bad-sig-end",
            6 => "T4-non-ECM-data",
            7 => "T4-non-ECM-sig-end",
            8 => "CM-message",
            9 => "JM-message",
            10 => "CI-message",
            11 => "V34-rate",
            _ => "unknown",
        }
    }
}

impl From<T38Indicator> for i32 {
    fn from(v: T38Indicator) -> (r: i32) {
        v.0 as i32
    }
}

impl vstd::std_specs::convert::FromSpecImpl<T38Indicator> for i32 {
    open spec fn obeys_from_spec() -> bool {
        true
    }

    open spec fn from_spec(v: T38Indicator) -> i32 {
        v.0 as i32
    }
}

impl From<T38DataType> for i32 {
    fn from(v: T38DataType) -> (r: i32) {
        v.0
    }
}

impl vstd::std_specs::convert::FromSpecImpl<T38DataType> for i32 {
    open spec fn obeys_from_spec() -> bool {
        true
    }

    open spec fn from_spec(v: T38DataType) -> i32 {
        v.0
    }
}

impl From<T38FieldType> for i32 {
    fn from(v: T38FieldType) -> (r: i32) {
        v.0 as i32
    }
}

impl vstd::std_specs::convert::FromSpecImpl<T38FieldType> for i32 {
    open spec fn obeys_from_spec() -> bool {
        true
    }

    open spec fn from_spec(v: T38FieldType) -> i32 {
        v.0 as i32
    }
}

/// T.38 packet category.
#[derive(Debug, Clone, Copy, PartialEq, Eq, Hash, Structural)]
pub enum T38PacketCategory {
    /// Indicator packet.
    Indicator,
    /// Control data packet.
    ControlData,
    /// Terminating control data packet.
    ControlDataEnd,
    /// Image data packet.
    ImageData,
    /// Terminating image data packet.
    ImageDataEnd,
}

impl T38PacketCategory {
    /// The native value.
    pub fn as_raw(self) -> (r: i32)
        ensures
            r == (match self {
                T38PacketCategory::Indicator => 0int,
                T38PacketCategory::ControlData => 1int,
                T38PacketCategory::ControlDataEnd => 2int,
                T38PacketCategory::ImageData => 3int,
                T38PacketCategory::ImageDataEnd => 4int,
            }),
    {
        match self {
            T38PacketCategory::Indicator => 0,
            T38PacketCategory::ControlData => 1,
            T38PacketCategory::ControlDataEnd => 2,
            T38PacketCategory::ImageData => 3,
            T38PacketCategory::ImageDataEnd => 4,
        }
    }
}

/// T.38 protocol version.
#[derive(Debug, Clone, Copy, PartialEq, Eq, Hash, Structural)]
pub enum T38Version {
    /// T.38 version 0 (original, 1998).
    V0,
    /// T.38 version 1.
    V1,
    /// T.38 version 2.
    V2,
    /// T.38 version 3 (2004 revision with V.34 support).
    V3,
}

impl T38Version {
    /// The native value.
    pub fn as_raw(self) -> (r: i32)
        ensures
            r == (match self {
                T38Version::V0 => 0int,
                T38Version::V1 => 1int,
                T38Version::V2 => 2int,
                T38Version::V3 => 3int,
            }),
    {
        match self {
            T38Version::V0 => 0,
            T38Version::V1 => 1,
            T38Version::V2 => 2,
            T38Version::V3 => 3,
        }
    }
}

/// T.38 data rate management method.
#[derive(Debug, Clone, Copy, PartialEq, Eq, Hash, Structural)]
pub enum T38DataRateManagement {
    /// Local TCF: training check performed locally at the gateway.
    LocalTcf,
    /// Transferred TCF: training check passed through to the remote endpoint.
    TransferredTcf,
}

impl T38DataRateManagement {
    /// The native value.
    pub fn as_raw(self) -> (r: i32)
        ensures
            r == (match self {
                T38DataRateManagement::LocalTcf => 1int,
                T38DataRateManagement::TransferredTcf => 2int,
            }),
    {
        match self {
            T38DataRateManagement::LocalTcf => 1,
            T38DataRateManagement::TransferredTcf => 2,
        }
    }
}

/// T.38 terminal configuration option flags.
#[derive(Debug, Clone, Copy, PartialEq, Eq, Hash, Structural)]
pub struct T38TerminalOptions(pub i32);

impl T38TerminalOptions {
    /// No flags.
    pub fn empty() -> (r: T38TerminalOptions)
        ensures
            r.0 == 0,
    {
        T38TerminalOptions(0)
    }

    /// Disable pacing of T.38 transmissions.
    pub fn no_pacing() -> (r: T38TerminalOptions)
        ensures
            r.0 == 0x01,
    {
        T38TerminalOptions(0x01)
    }

    /// Use regular (non-repeating) indicator packets.
    pub fn regular_indicators() -> (r: T38TerminalOptions)
        ensures
            r.0 == 0x02,
    {
        T38TerminalOptions(0x02)
    }

    /// Use 2-second repeating indicator packets.
    pub fn repeating_indicators_2s() -> (r: T38TerminalOptions)
        ensures
            r.0 == 0x04,
    {
        T38TerminalOptions(0x04)
    }

    /// Suppress indicator packets entirely.
    pub fn no_indicators() -> (r: T38TerminalOptions)
        ensures
            r.0 == 0x08,
    {
        T38TerminalOptions(0x08)
    }

    /// Flags from raw bits.
    pub fn from_bits_retain(bits: i32) -> (r: T38TerminalOptions)
        ensures
            r.0 == bits,
    {
        T38TerminalOptions(bits)
    }

    /// The raw bits.
    pub fn bits(self) -> (r: i32)
        ensures
            r == self.0,
    {
        self.0
    }

    /// The flags of both.
    pub fn union(self, other: T38TerminalOptions) -> (r: T38TerminalOptions)
        ensures
            r.0 == self.0 | other.0,
    {
        T38TerminalOptions(self.0 | other.0)
    }

    /// Whether every flag of `other` is set here.
    pub fn contains(self, other: T38TerminalOptions) -> (r: bool)
        ensures
            r == (self.0 & other.0 == other.0),
    {
        self.0 & other.0 == other.0
    }

    /// Whether no flag is set.
    pub fn is_empty(self) -> (r: bool)
        ensures
            r == (self.0 == 0),
    {
        self.0 == 0
    }
}

impl core::ops::BitOr for T38TerminalOptions {
    type Output = T38TerminalOptions;

    fn bitor(self, rhs: T38TerminalOptions) -> (r: T38TerminalOptions) {
        T38TerminalOptions(self.0 | rhs.0)
    }
}

impl vstd::std_specs::ops::BitOrSpecImpl for T38TerminalOptions {
    open spec fn obeys_bitor_spec() -> bool {
        true
    }

    open spec fn bitor_req(self, rhs: T38TerminalOptions) -> bool {
        true
    }

    open spec fn bitor_spec(self, rhs: T38TerminalOptions) -> T38TerminalOptions {
        T38TerminalOptions(self.0 | rhs.0)
    }
}

impl Default for T38TerminalOptions {
    /// No options.
    fn default() -> (r: T38TerminalOptions)
        ensures
            r.0 == 0,
    {
        T38TerminalOptions(0)
    }
}
} // verus!
