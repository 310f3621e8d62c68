//! Shared types of T.4/T.6 fax image coding: compression modes, decoder status and transfer statistics.
use vstd::prelude::*;

use crate::error::SpanDspError;

verus! {

/// T.4 image compression modes; combine them with `|`.
#[derive(Debug, Clone, Copy, PartialEq, Eq, Hash, Structural)]
pub struct T4Compression(pub u32);

impl T4Compression {
    /// No flags.
    pub fn empty() -> (r: T4Compression)
        ensures
            r.0 == 0,
    {
        T4Compression(0)
    }

    /// No compression.
    pub fn none() -> (r: T4Compression)
        ensures
            r.0 == 0x01,
    {
        T4Compression(0x01)
    }

    /// T.4 1D (MH) compression.
    pub fn t4_1d() -> (r: T4Compression)
        ensures
            r.0 == 0x02,
    {
        T4Compression(0x02)
    }

    /// T.4 2D (MR) compression.
    pub fn t4_2d() -> (r: T4Compression)
        ensures
            r.0 == 0x04,
    {
        T4Compression(0x04)
    }

    /// T.6 (MMR) compression.
    pub fn t6() -> (r: T4Compression)
        ensures
            r.0 == 0x08,
    {
        T4Compression(0x08)
    }

    /// T.85 monochrome JBIG coding with L0 fixed.
    pub fn t85() -> (r: T4Compression)
        ensures
            r.0 == 0x10,
    {
        T4Compression(0x10)
    }

    /// T.85 monochrome JBIG coding with L0 variable.
    pub fn t85_l0() -> (r: T4Compression)
        ensures
            r.0 == 0x20,
    {
        T4Compression(0x20)
    }

    /// T.43 grey-scale/colour JBIG coding.
    pub fn t43() -> (r: T4Compression)
        ensures
            r.0 == 0x40,
    {
        T4Compression(0x40)
    }

    /// T.45 run-length colour coding.
    pub fn t45() -> (r: T4Compression)
        ensures
            r.0 == 0x80,
    {
        T4Compression(0x80)
    }

    /// T.42/T.81 JPEG coding.
    pub fn t42_t81() -> (r: T4Compression)
        ensures
            r.0 == 0x100,
    {
        T4Compression(0x100)
    }

    /// T.81 sYCC JPEG coding.
    pub fn sycc_t81() -> (r: T4Compression)
        ensures
            r.0 == 0x200,
    {
        T4Compression(0x200)
    }

    /// T.88 coding.
    pub fn t88() -> (r: T4Compression)
        ensures
            r.0 == 0x400,
    {
        T4Compression(0x400)
    }

    /// Uncompressed data.
    pub fn uncompressed() -> (r: T4Compression)
        ensures
            r.0 == 0x1000,
    {
        T4Compression(0x1000)
    }

    /// JPEG coding.
    pub fn jpeg() -> (r: T4Compression)
        ensures
            r.0 == 0x2000,
    {
        T4Compression(0x2000)
    }

    /// No sub-sampling modifier.
    pub fn no_subsampling() -> (r: T4Compression)
        ensures
            r.0 == 0x800000,
    {
        T4Compression(0x800000)
    }

    /// Grey-scale modifier.
    pub fn grayscale() -> (r: T4Compression)
        ensures
            r.0 == 0x1000000,
    {
        T4Compression(0x1000000)
    }

    /// Colour modifier.
    pub fn colour() -> (r: T4Compression)
        ensures
            r.0 == 0x2000000,
    {
        T4Compression(0x2000000)
    }

    /// 12-bit modifier.
    pub fn bit12() -> (r: T4Compression)
        ensures
            r.0 == 0x4000000,
    {
        T4Compression(0x4000000)
    }

    /// Colour-to-grey conversion modifier.
    pub fn colour_to_gray() -> (r: T4Compression)
        ensures
            r.0 == 0x8000000,
    {
        T4Compression(0x8000000)
    }

    /// Grey-to-bilevel conversion modifier.
    pub fn gray_to_bilevel() -> (r: T4Compression)
        ensures
            r.0 == 0x10000000,
    {
        T4Compression(0x10000000)
    }

    /// Colour-to-bilevel conversion modifier.
    pub fn colour_to_bilevel() -> (r: T4Compression)
        ensures
            r.0 == 0x20000000,
    {
        T4Compression(0x20000000)
    }

    /// Rescaling modifier.
    pub fn rescaling() -> (r: T4Compression)
        ensures
            r.0 == 0x40000000,
    {
        T4Compression(0x40000000)
    }

    /// Flags from raw bits.
    pub fn from_bits_retain(bits: u32) -> (r: T4Compression)
        ensures
            r.0 == bits,
    {
        T4Compression(bits)
    }

    /// The raw bits.
    pub fn bits(self) -> (r: u32)
        ensures
            r == self.0,
    {
        self.0
    }

    /// The flags of both.
    pub fn union(self, other: T4Compression) -> (r: T4Compression)
        ensures
            r.0 == self.0 | other.0,
    {
        T4Compression(self.0 | other.0)
    }

    /// Whether every flag of `other` is set here.
    pub fn contains(self, other: T4Compression) -> (r: bool)
        ensures
            r == (self.0 & other.0 == other.0),
    {
        self.0 & other.0 == other.0
    }

    /// Whether no flag is set.
    pub fn is_empty(self) -> (r: bool)
        ensures
            r == (self.0 == 0),
    {
        self.0 == 0
    }
}

impl core::ops::BitOr for T4Compression {
    type Output = T4Compression;

    fn bitor(self, rhs: T4Compression) -> (r: T4Compression) {
        T4Compression(self.0 | rhs.0)
    }
}

impl vstd::std_specs::ops::BitOrSpecImpl for T4Compression {
    open spec fn obeys_bitor_spec() -> bool {
        true
    }

    open spec fn bitor_req(self, rhs: T4Compression) -> bool {
        true
    }

    open spec fn bitor_spec(self, rhs: T4Compression) -> T4Compression {
        T4Compression(self.0 | rhs.0)
    }
}

/// Status returned by the T.4/T.6 decoders when fed data.
#[derive(Debug, Clone, Copy, PartialEq, Eq, Hash, Structural)]
pub enum T4DecodeStatus {
    /// More data is needed to complete the image.
    MoreData,
    /// The image has been decoded successfully.
    Complete,
    /// Decoding was interrupted.
    Interrupt,
    /// Decoding was aborted.
    Aborted,
    /// Out of memory.
    NoMem,
    /// Invalid data encountered.
    InvalidData,
}

/// Native value of a decoder status.
pub open spec fn decode_status_value(s: T4DecodeStatus) -> i32 {
    match s {
        T4DecodeStatus::MoreData => 0i32,
        T4DecodeStatus::Complete => -1i32,
        T4DecodeStatus::Interrupt => -2i32,
        T4DecodeStatus::Aborted => -3i32,
        T4DecodeStatus::NoMem => -4i32,
        T4DecodeStatus::InvalidData => -5i32,
    }
}

impl T4DecodeStatus {
    /// Native value of this status.
    pub fn as_raw(self) -> (r: i32)
        ensures
            r == decode_status_value(self),
    {
        match self {
            T4DecodeStatus::MoreData => 0,
            T4DecodeStatus::Complete => -1,
            T4DecodeStatus::Interrupt => -2,
            T4DecodeStatus::Aborted => -3,
            T4DecodeStatus::NoMem => -4,
            T4DecodeStatus::InvalidData => -5,
        }
    }

    /// The status with native value `value`, if there is one.
    pub fn from_raw(value: i32) -> (r: Option<T4DecodeStatus>)
        ensures
            -5 <= value <= 0 <==> r is Some,
            r matches Some(s) ==> decode_status_value(s) == value,
    {
        match value {
            0 => Some(T4DecodeStatus::MoreData),
            -1 => Some(T4DecodeStatus::Complete),
            -2 => Some(T4DecodeStatus::Interrupt),
            -3 => Some(T4DecodeStatus::Aborted),
            -4 => Some(T4DecodeStatus::NoMem),
            -5 => Some(T4DecodeStatus::InvalidData),
            _ => None,
        }
    }

    /// Human-readable name.
    pub fn name(self) -> (r: &'static str)
        ensures
            r == decode_status_name(self),
    {
        match self {
            T4DecodeStatus::MoreData => "more-data",
            T4DecodeStatus::Complete => "ok",
            T4DecodeStatus::Interrupt => "interrupt",
            T4DecodeStatus::Aborted => "aborted",
            T4DecodeStatus::NoMem => "no-mem",
            T4DecodeStatus::InvalidData => "invalid-data",
        }
    }
}

/// Name of a decoder status.
pub open spec fn decode_status_name(s: T4DecodeStatus) -> &'static str {
    match s {
        T4DecodeStatus::MoreData => "more-data",
        T4DecodeStatus::Complete => "ok",
        T4DecodeStatus::Interrupt => "interrupt",
        T4DecodeStatus::Aborted => "aborted",
        T4DecodeStatus::NoMem => "no-mem",
        T4DecodeStatus::InvalidData => "invalid-data",
    }
}

/// The status a decoder's native return value stands for; a value outside
/// the status set is reported as invalid data.
pub fn decode_status(rc: i32) -> (r: T4DecodeStatus)
    ensures
        -5 <= rc <= 0 ==> decode_status_value(r) == rc,
        !(-5 <= rc <= 0) ==> r == T4DecodeStatus::InvalidData,
{
    match T4DecodeStatus::from_raw(rc) {
        Some(s) => s,
        None => T4DecodeStatus::InvalidData,
    }
}

impl From<T4DecodeStatus> for i32 {
    fn from(s: T4DecodeStatus) -> (r: i32) {
        s.as_raw()
    }
}

impl vstd::std_specs::convert::FromSpecImpl<T4DecodeStatus> for i32 {
    open spec fn obeys_from_spec() -> bool {
        true
    }

    open spec fn from_spec(s: T4DecodeStatus) -> i32 {
        decode_status_value(s)
    }
}

impl TryFrom<i32> for T4DecodeStatus {
    type Error = SpanDspError;

    fn try_from(value: i32) -> (r: Result<T4DecodeStatus, SpanDspError>)
        ensures
            -5 <= value <= 0 <==> r is Ok,
            r matches Ok(s) ==> decode_status_value(s) == value,
            r is Err ==> (r matches Err(SpanDspError::InvalidInput(_))),
    {
        match T4DecodeStatus::from_raw(value) {
            Some(s) => Ok(s),
            None => Err(SpanDspError::InvalidInput(String::from_str("invalid T4 decode status"))),
        }
    }
}

/// The contract of `try_from` itself states the result; the error's text is
/// not part of it, so no single spec value is given here.
impl vstd::std_specs::convert::TryFromSpecImpl<i32> for T4DecodeStatus {
    open spec fn obeys_try_from_spec() -> bool {
        false
    }

    open spec fn try_from_spec(value: i32) -> Result<T4DecodeStatus, SpanDspError> {
        arbitrary()
    }
}

/// The transfer statistics as the native engine lays them out.
#[derive(Debug, Clone, Copy, PartialEq, Eq, Default)]
pub struct RawT4Stats {
    pub pages_transferred: i32,
    pub pages_in_file: i32,
    pub bad_rows: i32,
    pub longest_bad_row_run: i32,
    pub image_type: i32,
    pub image_x_resolution: i32,
    pub image_y_resolution: i32,
    pub image_width: i32,
    pub image_length: i32,
    pub type_: i32,
    pub x_resolution: i32,
    pub y_resolution: i32,
    pub width: i32,
    pub length: i32,
    pub compression: i32,
    pub line_image_size: i32,
}

/// Transfer statistics for a T.4 session.
#[derive(Debug, Clone, PartialEq, Eq)]
pub struct T4Stats {
    /// Number of pages transferred so far.
    pub pages_transferred: i32,
    /// Number of pages in the file (negative if unknown).
    pub pages_in_file: i32,
    /// Number of bad pixel rows in the most recent page.
    pub bad_rows: i32,
    /// Largest number of bad pixel rows in a block in the most recent page.
    pub longest_bad_row_run: i32,
    /// Image type of the file page.
    pub image_type: i32,
    /// Horizontal resolution of the file page (pixels per metre).
    pub image_x_resolution: i32,
    /// Vertical resolution of the file page (pixels per metre).
    pub image_y_resolution: i32,
    /// Width of the file page (pixels).
    pub image_width: i32,
    /// Length of the file page (pixels).
    pub image_length: i32,
    /// Image type of the exchanged page.
    pub exchange_type: i32,
    /// Horizontal resolution of the exchanged page (pixels per metre).
    pub x_resolution: i32,
    /// Vertical resolution of the exchanged page (pixels per metre).
    pub y_resolution: i32,
    /// Width of the exchanged page (pixels).
    pub width: i32,
    /// Length of the exchanged page (pixels).
    pub length: i32,
    /// Compression type used between FAX machines.
    pub compression: i32,
    /// Size of the image on the line (bytes).
    pub line_image_size: i32,
}

/// The statistics with the native layout's fields under their own names.
pub open spec fn stats_of(s: RawT4Stats) -> T4Stats {
    T4Stats {
        pages_transferred: s.pages_transferred,
        pages_in_file: s.pages_in_file,
        bad_rows: s.bad_rows,
        longest_bad_row_run: s.longest_bad_row_run,
        image_type: s.image_type,
        image_x_resolution: s.image_x_resolution,
        image_y_resolution: s.image_y_resolution,
        image_width: s.image_width,
        image_length: s.image_length,
        exchange_type: s.type_,
        x_resolution: s.x_resolution,
        y_resolution: s.y_resolution,
        width: s.width,
        length: s.length,
        compression: s.compression,
        line_image_size: s.line_image_size,
    }
}

impl From<RawT4Stats> for T4Stats {
    fn from(s: RawT4Stats) -> (r: T4Stats) {
        T4Stats {
            pages_transferred: s.pages_transferred,
            pages_in_file: s.pages_in_file,
            bad_rows: s.bad_rows,
            longest_bad_row_run: s.longest_bad_row_run,
            image_type: s.image_type,
            image_x_resolution: s.image_x_resolution,
            image_y_resolution: s.image_y_resolution,
            image_width: s.image_width,
            image_length: s.image_length,
            exchange_type: s.type_,
            x_resolution: s.x_resolution,
            y_resolution: s.y_resolution,
            width: s.width,
            length: s.length,
            compression: s.compression,
            line_image_size: s.line_image_size,
        }
    }
}

impl vstd::std_specs::convert::FromSpecImpl<RawT4Stats> for T4Stats {
    open spec fn obeys_from_spec() -> bool {
        true
    }

    open spec fn from_spec(s: RawT4Stats) -> T4Stats {
        stats_of(s)
    }
}

/// The byte count of a bulk read whose native return may be negative: a
/// negative return produced nothing.
pub fn produced_count(rc: i32) -> (r: usize)
    ensures
        r == (if rc > 0 { rc as int } else { 0 }),
{
    if rc > 0 {
        rc as usize
    } else {
        0
    }
}

/// Whether the next page has a different format: `Some(false)` for 0,
/// `Some(true)` for 1, and `None` (no next page, or a file error) otherwise.
pub fn page_format_change(rc: i32) -> (r: Option<bool>)
    ensures
        r == (if rc == 0 {
            Some(false)
        } else if rc == 1 {
            Some(true)
        } else {
            None::<bool>
        }),
{
    match rc {
        0 => Some(false),
        1 => Some(true),
        _ => None,
    }
}

/// The native answer of a row-write callback: 0 to go on, -1 to abort.
pub fn row_write_status(keep_going: bool) -> (r: i32)
    ensures
        r == (if keep_going { 0i32 } else { -1i32 }),
{
    if keep_going {
        0
    } else {
        -1
    }
}

} // verus!
