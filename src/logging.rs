//! Log severity levels and display flags of the native logging subsystem.
use vstd::prelude::*;

use crate::callback::utf8_text;
use crate::error::SpanDspError;

verus! {

/// Log severity levels, matching the native `SPAN_LOG_*` values.
#[derive(Debug, Clone, Copy, PartialEq, Eq, PartialOrd, Ord, Hash, Structural)]
pub enum LogLevel {
    Off,
    Error,
    Warning,
    ProtocolError,
    ProtocolWarning,
    Flow,
    Flow2,
    Flow3,
    Debug,
    Debug2,
    Debug3,
}

/// Native value of a log level.
pub open spec fn level_value(l: LogLevel) -> i32 {
    match l {
        LogLevel::Off => 0,
        LogLevel::Error => 1,
        LogLevel::Warning => 2,
        LogLevel::ProtocolError => 3,
        LogLevel::ProtocolWarning => 4,
        LogLevel::Flow => 5,
        LogLevel::Flow2 => 6,
        LogLevel::Flow3 => 7,
        LogLevel::Debug => 8,
        LogLevel::Debug2 => 9,
        LogLevel::Debug3 => 10,
    }
}

/// Name of a log level.
pub open spec fn level_name(l: LogLevel) -> &'static str {
    match l {
        LogLevel::Off => "none",
        LogLevel::Error => "error",
        LogLevel::Warning => "warning",
        LogLevel::ProtocolError => "protocol-error",
        LogLevel::ProtocolWarning => "protocol-warning",
        LogLevel::Flow => "flow",
        LogLevel::Flow2 => "flow-2",
        LogLevel::Flow3 => "flow-3",
        LogLevel::Debug => "debug",
        LogLevel::Debug2 => "debug-2",
        LogLevel::Debug3 => "debug-3",
    }
}

impl LogLevel {
    /// Human-readable name of this level.
    pub fn name(self) -> (r: &'static str)
        ensures
            r == level_name(self),
    {
        match self {
            LogLevel::Off => "none",
            LogLevel::Error => "error",
            LogLevel::Warning => "warning",
            LogLevel::ProtocolError => "protocol-error",
            LogLevel::ProtocolWarning => "protocol-warning",
            LogLevel::Flow => "flow",
            LogLevel::Flow2 => "flow-2",
            LogLevel::Flow3 => "flow-3",
            LogLevel::Debug => "debug",
            LogLevel::Debug2 => "debug-2",
            LogLevel::Debug3 => "debug-3",
        }
    }

    /// Native value of this level.
    pub fn as_raw(self) -> (r: i32)
        ensures
            r == level_value(self),
    {
        match self {
            LogLevel::Off => 0,
            LogLevel::Error => 1,
            LogLevel::Warning => 2,
            LogLevel::ProtocolError => 3,
            LogLevel::ProtocolWarning => 4,
            LogLevel::Flow => 5,
            LogLevel::Flow2 => 6,
            LogLevel::Flow3 => 7,
            LogLevel::Debug => 8,
            LogLevel::Debug2 => 9,
            LogLevel::Debug3 => 10,
        }
    }

    /// The level with native value `value`, if there is one.
    pub fn from_raw(value: i32) -> (r: Option<LogLevel>)
        ensures
            0 <= value <= 10 <==> r is Some,
            r matches Some(l) ==> level_value(l) == value,
    {
        match value {
            0 => Some(LogLevel::Off),
            1 => Some(LogLevel::Error),
            2 => Some(LogLevel::Warning),
            3 => Some(LogLevel::ProtocolError),
            4 => Some(LogLevel::ProtocolWarning),
            5 => Some(LogLevel::Flow),
            6 => Some(LogLevel::Flow2),
            7 => Some(LogLevel::Flow3),
            8 => Some(LogLevel::Debug),
            9 => Some(LogLevel::Debug2),
            10 => Some(LogLevel::Debug3),
            _ => None,
        }
    }
}

impl TryFrom<i32> for LogLevel {
    type Error = SpanDspError;

    fn try_from(value: i32) -> (r: Result<LogLevel, SpanDspError>)
        ensures
            0 <= value <= 10 <==> r is Ok,
            r matches Ok(l) ==> level_value(l) == value,
            r is Err ==> (r matches Err(SpanDspError::InvalidInput(_))),
    {
        match LogLevel::from_raw(value) {
            Some(l) => Ok(l),
            None => Err(SpanDspError::InvalidInput(String::from_str("invalid log level"))),
        }
    }
}

/// The contract of `try_from` itself states the result; the error's text is
/// not part of it, so no single spec value is given here.
impl vstd::std_specs::convert::TryFromSpecImpl<i32> for LogLevel {
    open spec fn obeys_try_from_spec() -> bool {
        false
    }

    open spec fn try_from_spec(value: i32) -> Result<LogLevel, SpanDspError> {
        arbitrary()
    }
}

/// The level with native value `value`, or `Off` for an unknown value.
pub open spec fn level_of_spec(value: i32) -> LogLevel {
    if value == 0 {
        LogLevel::Off
    } else if value == 1 {
        LogLevel::Error
    } else if value == 2 {
        LogLevel::Warning
    } else if value == 3 {
        LogLevel::ProtocolError
    } else if value == 4 {
        LogLevel::ProtocolWarning
    } else if value == 5 {
        LogLevel::Flow
    } else if value == 6 {
        LogLevel::Flow2
    } else if value == 7 {
        LogLevel::Flow3
    } else if value == 8 {
        LogLevel::Debug
    } else if value == 9 {
        LogLevel::Debug2
    } else if value == 10 {
        LogLevel::Debug3
    } else {
        LogLevel::Off
    }
}

/// The level a native log message is delivered with: its own level when the
/// value is known, and `Off` otherwise.
pub fn level_of(value: i32) -> (r: LogLevel)
    ensures
        r == level_of_spec(value),
        0 <= value <= 10 ==> level_value(r) == value,
        !(0 <= value <= 10) ==> r == LogLevel::Off,
{
    match LogLevel::from_raw(value) {
        Some(l) => l,
        None => LogLevel::Off,
    }
}

impl From<LogLevel> for i32 {
    fn from(level: LogLevel) -> (r: i32) {
        level.as_raw()
    }
}

impl vstd::std_specs::convert::FromSpecImpl<LogLevel> for i32 {
    open spec fn obeys_from_spec() -> bool {
        true
    }

    open spec fn from_spec(level: LogLevel) -> i32 {
        level_value(level)
    }
}

/// What a native log message delivers to a message handler: nothing when
/// the context or the text is missing, nothing when the text is not valid
/// UTF-8, and otherwise its level (as `level_of` reads it) and its text.
pub fn log_message(context_present: bool, level: i32, text: Option<&[u8]>) -> (r: Option<(LogLevel, String)>)
    ensures
        !context_present || text is None ==> r is None,
        context_present && text is Some ==> (r is Some <==> utf8_text(text->0@) is Some),
        r matches Some((l, t)) ==> l == level_of_spec(level) && t@ == utf8_text(text->0@)->0,
{
    if !context_present {
        return None;
    }
    match text {
        None => None,
        Some(bytes) => match crate::callback::utf8(bytes) {
            Some(t) => Some((level_of(level), t)),
            None => None,
        },
    }
}

/// Flags controlling what information is shown in log messages.
#[derive(Debug, Clone, Copy, PartialEq, Eq, Hash, Structural)]
pub struct LogShowFlags(pub i32);

impl LogShowFlags {
    /// No flags.
    pub fn empty() -> (r: LogShowFlags)
        ensures
            r.0 == 0,
    {
        LogShowFlags(0)
    }

    /// Show the date.
    pub fn date() -> (r: LogShowFlags)
        ensures
            r.0 == 0x0100,
    {
        LogShowFlags(0x0100)
    }

    /// Show the sample time.
    pub fn sample_time() -> (r: LogShowFlags)
        ensures
            r.0 == 0x0200,
    {
        LogShowFlags(0x0200)
    }

    /// Show the severity level.
    pub fn severity() -> (r: LogShowFlags)
        ensures
            r.0 == 0x0400,
    {
        LogShowFlags(0x0400)
    }

    /// Show the protocol name.
    pub fn protocol() -> (r: LogShowFlags)
        ensures
            r.0 == 0x0800,
    {
        LogShowFlags(0x0800)
    }

    /// Show the variant.
    pub fn variant() -> (r: LogShowFlags)
        ensures
            r.0 == 0x1000,
    {
        LogShowFlags(0x1000)
    }

    /// Show the tag.
    pub fn tag() -> (r: LogShowFlags)
        ensures
            r.0 == 0x2000,
    {
        LogShowFlags(0x2000)
    }

    /// Suppress all labelling.
    pub fn suppress_labelling() -> (r: LogShowFlags)
        ensures
            r.0 == 0x8000,
    {
        LogShowFlags(0x8000)
    }

    /// Flags from raw bits.
    pub fn from_bits_retain(bits: i32) -> (r: LogShowFlags)
        ensures
            r.0 == bits,
    {
        LogShowFlags(bits)
    }

    /// The raw bits.
    pub fn bits(self) -> (r: i32)
        ensures
            r == self.0,
    {
        self.0
    }

    /// The flags of both.
    pub fn union(self, other: LogShowFlags) -> (r: LogShowFlags)
        ensures
            r.0 == self.0 | other.0,
    {
        LogShowFlags(self.0 | other.0)
    }

    /// Whether every flag of `other` is set here.
    pub fn contains(self, other: LogShowFlags) -> (r: bool)
        ensures
            r == (self.0 & other.0 == other.0),
    {
        self.0 & other.0 == other.0
    }

    /// Whether no flag is set.
    pub fn is_empty(self) -> (r: bool)
        ensures
            r == (self.0 == 0),
    {
        self.0 == 0
    }
}

impl core::ops::BitOr for LogShowFlags {
    type Output = LogShowFlags;

    fn bitor(self, rhs: LogShowFlags) -> (r: LogShowFlags) {
        LogShowFlags(self.0 | rhs.0)
    }
}

impl vstd::std_specs::ops::BitOrSpecImpl for LogShowFlags {
    open spec fn obeys_bitor_spec() -> bool {
        true
    }

    open spec fn bitor_req(self, rhs: LogShowFlags) -> bool {
        true
    }

    open spec fn bitor_spec(self, rhs: LogShowFlags) -> LogShowFlags {
        LogShowFlags(self.0 | rhs.0)
    }
}

/// The native level word: the level in the low bits, the display flags above.
pub fn level_with_flags(level: LogLevel, flags: LogShowFlags) -> (r: i32)
    ensures
        r == level_value(level) | flags.0,
{
    level.as_raw() | flags.bits()
}

} // verus!
