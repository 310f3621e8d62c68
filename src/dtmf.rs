//! Decisions of the DTMF digit generator and detector.
use vstd::prelude::*;

verus! {

/// Most digits the detector buffers.
pub const MAX_DTMF_DIGITS: usize = 128;

/// How many digits to ask the detector for: the request, capped at the
/// detector's buffer size.
pub fn digits_request(max_digits: usize) -> (r: usize)
    ensures
        r == (if max_digits < MAX_DTMF_DIGITS { max_digits } else { MAX_DTMF_DIGITS }),
{
    if max_digits < MAX_DTMF_DIGITS {
        max_digits
    } else {
        MAX_DTMF_DIGITS
    }
}

/// Detection state of the last audio block.
#[derive(Debug, Clone, Copy, PartialEq, Eq, Structural)]
pub enum DtmfStatus {
    /// No digit is being detected.
    Idle,
    /// A digit may be present but is not yet certain.
    Maybe,
    /// This digit is being detected.
    Digit(u8),
}

/// The detection state a native status value stands for: 0 is idle, the
/// character `x` is an uncertain detection, and any other value is the
/// digit it encodes.
pub fn dtmf_status(raw: i32) -> (r: DtmfStatus)
    ensures
        raw == 0 ==> r == DtmfStatus::Idle,
        raw != 0 && raw as u8 == 0x78 ==> r == DtmfStatus::Maybe,
        raw != 0 && raw as u8 != 0x78 ==> r == DtmfStatus::Digit(raw as u8),
{
    if raw == 0 {
        DtmfStatus::Idle
    } else {
        #[verifier::truncate]
        let c = raw as u8;
        if c == 0x78 {
            DtmfStatus::Maybe
        } else {
            DtmfStatus::Digit(c)
        }
    }
}

} // verus!
