//! The error model: every native failure signal becomes one typed error.
use vstd::prelude::*;

verus! {

/// T.30 FAX protocol completion code (the native `t30_err_e` value).
#[derive(Debug, Clone, Copy, PartialEq, Eq, Hash, Structural)]
pub struct T30Error(pub u32);

/// Largest known T.30 completion code.
pub const T30_MAX_CODE: u32 = 61;

impl T30Error {
    /// The code of a successful completion.
    pub fn ok_code() -> (r: T30Error)
        ensures
            r.0 == 0,
    {
        T30Error(0)
    }

    /// Returns `true` if this represents a successful completion.
    pub fn is_ok(self) -> (r: bool)
        ensures
            r == (self.0 == 0),
    {
        self.0 == 0
    }

    /// Returns the raw native value.
    pub fn raw(self) -> (r: u32)
        ensures
            r == self.0,
    {
        self.0
    }

    /// Human-readable description of the completion code.
    pub fn description(self) -> (r: &'static str)
        ensures
            r == t30_description(self.0),
    {
        match self.0 {
            0 => "OK",
            1 => "CED tone detected",
            2 => "T0 timer expired",
            3 => "T1 timer expired",
            4 => "T3 timer expired",
            5 => "HDLC carrier lost",
            6 => "cannot train modem",
            7 => "operator intervention failed",
            8 => "incompatible remote capabilities",
            9 => "remote cannot receive",
            10 => "remote cannot transmit",
            11 => "resolution not supported",
            12 => "image size not supported",
            13 => "unexpected message received",
            14 => "bad DCS received during transmit",
            15 => "bad page received during transmit",
            16 => "ECM page error during transmit",
            17 => "DCN received during transmit",
            18 => "invalid response during transmit",
            19 => "no DIS received",
            20 => "phase B dead during transmit",
            21 => "phase D dead during transmit",
            22 => "T5 timer expired during transmit",
            23 => "ECM page error during receive",
            24 => "unexpected DCS during receive",
            25 => "invalid command during receive",
            26 => "no carrier during receive",
            27 => "no end-of-line during receive",
            28 => "no fax detected",
            29 => "T2 expired, DCN received",
            30 => "T2 expired in phase D",
            31 => "T2 expired waiting for fax",
            32 => "T2 expired waiting for MPS",
            33 => "T2 expired waiting for RR",
            34 => "T2 expired",
            35 => "DCN received unexpectedly",
            36 => "DCN received during data",
            37 => "DCN received during fax",
            38 => "DCN received during phase D",
            39 => "DCN received during RR/D",
            40 => "DCN received, no retrain",
            41 => "file I/O error",
            42 => "no page to send",
            43 => "bad TIFF file",
            44 => "bad page",
            45 => "bad TIFF tag",
            46 => "bad TIFF header",
            47 => "out of memory",
            _ => "unknown T.30 error",
        }
    }
}

/// Description of a T.30 completion code.
pub open spec fn t30_description(code: u32) -> &'static str {
    match code {
        0u32 => "OK",
        1u32 => "CED tone detected",
        2u32 => "T0 timer expired",
        3u32 => "T1 timer expired",
        4u32 => "T3 timer expired",
        5u32 => "HDLC carrier lost",
        6u32 => "cannot train modem",
        7u32 => "operator intervention failed",
        8u32 => "incompatible remote capabilities",
        9u32 => "remote cannot receive",
        10u32 => "remote cannot transmit",
        11u32 => "resolution not supported",
        12u32 => "image size not supported",
        13u32 => "unexpected message received",
        14u32 => "bad DCS received during transmit",
        15u32 => "bad page received during transmit",
        16u32 => "ECM page error during transmit",
        17u32 => "DCN received during transmit",
        18u32 => "invalid response during transmit",
        19u32 => "no DIS received",
        20u32 => "phase B dead during transmit",
        21u32 => "phase D dead during transmit",
        22u32 => "T5 timer expired during transmit",
        23u32 => "ECM page error during receive",
        24u32 => "unexpected DCS during receive",
        25u32 => "invalid command during receive",
        26u32 => "no carrier during receive",
        27u32 => "no end-of-line during receive",
        28u32 => "no fax detected",
        29u32 => "T2 expired, DCN received",
        30u32 => "T2 expired in phase D",
        31u32 => "T2 expired waiting for fax",
        32u32 => "T2 expired waiting for MPS",
        33u32 => "T2 expired waiting for RR",
        34u32 => "T2 expired",
        35u32 => "DCN received unexpectedly",
        36u32 => "DCN received during data",
        37u32 => "DCN received during fax",
        38u32 => "DCN received during phase D",
        39u32 => "DCN received during RR/D",
        40u32 => "DCN received, no retrain",
        41u32 => "file I/O error",
        42u32 => "no page to send",
        43u32 => "bad TIFF file",
        44u32 => "bad page",
        45u32 => "bad TIFF tag",
        46u32 => "bad TIFF header",
        47u32 => "out of memory",
        _ => "unknown T.30 error",
    }
}

/// Errors that can occur when using the engines.
#[derive(Debug, Clone)]
pub enum SpanDspError {
    /// Initialization of a native resource failed (it returned no state).
    InitFailed,
    /// A native operation returned a nonzero status code.
    ErrorCode(i32),
    /// An invalid input was provided, and rejected before any native call.
    InvalidInput(String),
    /// A T.30 FAX protocol error.
    T30(T30Error),
}

/// A convenience result type for engine operations.
pub type Result<T> = core::result::Result<T, SpanDspError>;

impl From<i32> for SpanDspError {
    fn from(code: i32) -> (r: SpanDspError) {
        SpanDspError::ErrorCode(code)
    }
}

impl vstd::std_specs::convert::FromSpecImpl<i32> for SpanDspError {
    open spec fn obeys_from_spec() -> bool {
        true
    }

    open spec fn from_spec(code: i32) -> SpanDspError {
        SpanDspError::ErrorCode(code)
    }
}

impl From<T30Error> for SpanDspError {
    fn from(e: T30Error) -> (r: SpanDspError) {
        SpanDspError::T30(e)
    }
}

impl vstd::std_specs::convert::FromSpecImpl<T30Error> for SpanDspError {
    open spec fn obeys_from_spec() -> bool {
        true
    }

    open spec fn from_spec(e: T30Error) -> SpanDspError {
        SpanDspError::T30(e)
    }
}

/// Classify the status of an integer-returning native operation: zero is
/// success, anything else is kept as a native error code.
pub fn check_code(rc: i32) -> (r: Result<()>)
    ensures
        rc == 0 <==> r is Ok,
        rc != 0 ==> r == Err::<(), SpanDspError>(SpanDspError::ErrorCode(rc)),
{
    if rc != 0 {
        return Err(SpanDspError::ErrorCode(rc));
    }
    Ok(())
}

/// Classify the result of a state-returning native initializer, given
/// whether it returned a state at all.
pub fn check_init(returned_state: bool) -> (r: Result<()>)
    ensures
        returned_state <==> r is Ok,
        !returned_state ==> r == Err::<(), SpanDspError>(SpanDspError::InitFailed),
{
    if returned_state {
        Ok(())
    } else {
        Err(SpanDspError::InitFailed)
    }
}

/// Whether a text holds the native string terminator.
pub open spec fn has_terminator(s: Seq<char>) -> bool {
    exists|i: int| 0 <= i < s.len() && s[i] == '\0'
}

/// Check a text parameter before it is handed to a native call: a text that
/// holds the native string terminator is rejected with `reason`.
pub fn check_text(text: &str, reason: &str) -> (r: Result<()>)
    ensures
        r is Ok <==> !has_terminator(text@),
        r is Err ==> (r matches Err(SpanDspError::InvalidInput(m)) && m@ == reason@),
{
    let n = text.unicode_len();
    let mut i: usize = 0;
    while i < n
        invariant
            n == text@.len(),
            i <= n,
            forall|j: int| 0 <= j < i ==> text@[j] != '\0',
        decreases n - i,
    {
        if text.get_char(i) == '\0' {
            return Err(SpanDspError::InvalidInput(String::from_str(reason)));
        }
        i = i + 1;
    }
    Ok(())
}

} // verus!
