//! Bit-exact G.711 logarithmic PCM (A-law and u-law) sample conversion.
use vstd::prelude::*;

verus! {

/// G.711 encoding mode.
#[derive(Debug, Clone, Copy, PartialEq, Eq, Hash, Structural)]
pub enum G711Mode {
    /// ITU-T G.711 A-law.
    ALaw,
    /// ITU-T G.711 u-law (mu-law).
    ULaw,
}

impl G711Mode {
    /// The native selector for this mode.
    pub fn as_raw(self) -> (r: i32)
        ensures
            r == (match self {
                G711Mode::ALaw => 0int,
                G711Mode::ULaw => 1int,
            }),
    {
        match self {
            G711Mode::ALaw => 0,
            G711Mode::ULaw => 1,
        }
    }

    /// Human-readable name of the mode.
    pub fn name(self) -> (r: &'static str)
        ensures
            r == mode_name(self),
    {
        match self {
            G711Mode::ALaw => "A-law",
            G711Mode::ULaw => "u-law",
        }
    }
}

/// Name of a G.711 mode.
pub open spec fn mode_name(m: G711Mode) -> &'static str {
    match m {
        G711Mode::ALaw => "A-law",
        G711Mode::ULaw => "u-law",
    }
}

/// Bias added to the magnitude during u-law encoding.
pub const ULAW_BIAS: i32 = 0x84;

/// A-law alternate mark inversion mask.
pub const ALAW_AMI_MASK: u8 = 0x55;

/// Segment (exponent) of a biased magnitude in `0..=0xFFFF`: the position of
/// its highest set bit above bit 7, or 8 when the magnitude needs 16 bits.
pub open spec fn segment_of(mag: i32) -> i32 {
    if mag < 0x100 {
        0
    } else if mag < 0x200 {
        1
    } else if mag < 0x400 {
        2
    } else if mag < 0x800 {
        3
    } else if mag < 0x1000 {
        4
    } else if mag < 0x2000 {
        5
    } else if mag < 0x4000 {
        6
    } else if mag < 0x8000 {
        7
    } else {
        8
    }
}

/// Biased u-law magnitude of a sample.
pub open spec fn ulaw_magnitude(x: i16) -> i32 {
    if x >= 0 {
        (x as i32 + 0x84) as i32
    } else {
        (0x84 - x as i32) as i32
    }
}

/// u-law code of a sample: segment and four mantissa bits of the biased
/// magnitude, with the sign in bit 7, all complemented; saturates at the
/// largest code of the sample's sign.
pub open spec fn ulaw_encode(x: i16) -> u8 {
    let mag = ulaw_magnitude(x);
    let mask: u8 = if x >= 0 { 0xFF } else { 0x7F };
    let seg = segment_of(mag);
    if seg >= 8 {
        (0x7Fu8 ^ mask) as u8
    } else {
        ((((seg << 4u32) | ((mag >> ((seg + 3) as u32)) & 0xF)) as u8) ^ mask) as u8
    }
}

/// Linear value of a u-law code (the midpoint of its quantization interval).
pub open spec fn ulaw_decode(c: u8) -> i16 {
    let u: u8 = !c;
    let t: i32 = ((((((u & 0x0F) as i32) << 3u32) + 0x84) as i32) << ((((u as i32) & 0x70) >> 4u32) as u32)) as i32;
    if u & 0x80 != 0 {
        (0x84 - t) as i16
    } else {
        (t - 0x84) as i16
    }
}

/// A-law magnitude of a sample (negative samples are folded by one's complement).
pub open spec fn alaw_magnitude(x: i16) -> i32 {
    if x >= 0 {
        x as i32
    } else {
        (-(x as i32) - 1) as i32
    }
}

/// A-law code of a sample: sign, segment and four mantissa bits, with the
/// alternate mark inversion mask applied.
pub open spec fn alaw_encode(x: i16) -> u8 {
    let mag = alaw_magnitude(x);
    let mask: u8 = if x >= 0 { 0xD5 } else { 0x55 };
    let seg = segment_of(mag);
    let shift: i32 = if seg != 0 { (seg + 3) as i32 } else { 4 };
    if seg >= 8 {
        (0x7Fu8 ^ mask) as u8
    } else {
        ((((seg << 4u32) | ((mag >> (shift as u32)) & 0x0F)) as u8) ^ mask) as u8
    }
}

/// Linear value of an A-law code (the midpoint of its quantization interval).
pub open spec fn alaw_decode(c: u8) -> i16 {
    let a: u8 = c ^ 0x55;
    let i: i32 = ((a & 0x0F) as i32) << 4u32;
    let seg: i32 = ((a as i32) & 0x70) >> 4u32;
    let v: i32 = if seg != 0 { (((i + 0x108) as i32) << ((seg - 1) as u32)) as i32 } else { (i + 8) as i32 };
    if a & 0x80 != 0 {
        v as i16
    } else {
        (-v) as i16
    }
}

/// One more right shift by one is a right shift by one more.
proof fn lemma_shift_step(v: u32, n: u32, x: u32)
    requires
        n <= 31,
        x == v >> n,
        x > 1,
    ensures
        x >> 1u32 == v >> ((n + 1) as u32),
        x >> 1u32 >= 1,
        x >> 1u32 < x,
        n < 31,
{
    assert(x >> 1u32 == v >> ((n + 1) as u32) && x >> 1u32 >= 1 && x >> 1u32 < x && n < 31)
        by (bit_vector)
        requires
            n <= 31,
            x == v >> n,
            x > 1,
    ;
}

/// Position of the highest set bit of `v`'s 32-bit pattern (0 for bit 0, 31
/// for a negative value), or -1 when `v` is 0.
fn top_bit(v: i32) -> (r: i32)
    ensures
        v == 0 ==> r == -1,
        v != 0 ==> 0 <= r <= 31 && (v as u32) >> (r as u32) == 1u32,
{
    if v == 0 {
        return -1;
    }
    #[verifier::truncate]
    let w: u32 = v as u32;
    let mut n: u32 = 0;
    let mut x: u32 = w;
    assert(w >> 0u32 == w && w >= 1) by (bit_vector)
        requires
            v != 0,
            w == v as u32,
    ;
    while x > 1
        invariant
            n <= 31,
            x >= 1,
            x == w >> n,
            w == v as u32,
        decreases x,
    {
        proof {
            lemma_shift_step(w, n, x);
        }
        x = x >> 1u32;
        n = n + 1;
    }
    n as i32
}

/// The segment found from the highest set bit of `mag | 0xFF` is `segment_of(mag)`.
proof fn lemma_segment(mag: i32, r: i32)
    requires
        0 <= mag <= 0xFFFF,
        0 <= r <= 31,
        ((mag | 0xFF) as u32) >> (r as u32) == 1u32,
    ensures
        r - 7 == segment_of(mag),
        0 <= r - 7 <= 8,
{
    assert(r - 7 == segment_of(mag) && 0 <= r - 7 <= 8) by (bit_vector)
        requires
            0 <= mag <= 0xFFFF,
            0 <= r <= 31,
            ((mag | 0xFF) as u32) >> (r as u32) == 1u32,
    ;
}

/// Encode one linear sample as a u-law code.
pub fn linear_to_ulaw(linear: i16) -> (r: u8)
    ensures
        r == ulaw_encode(linear),
{
    let mut lin: i32 = linear as i32;
    let mask: u8;
    if lin >= 0 {
        lin = lin + ULAW_BIAS;
        mask = 0xFF;
    } else {
        lin = ULAW_BIAS - lin;
        mask = 0x7F;
    }
    assert(lin == ulaw_magnitude(linear));
    assert(0 < (lin | 0xFF) <= 0xFFFF) by (bit_vector)
        requires
            0 <= lin <= 0xFFFF,
    ;
    let tb = top_bit(lin | 0xFF);
    proof {
        lemma_segment(lin, tb);
    }
    let seg = tb - 7;
    if seg >= 8 {
        0x7F ^ mask
    } else {
        (((seg << 4u32) | ((lin >> ((seg + 3) as u32)) & 0xF)) as u8) ^ mask
    }
}

/// Decode one u-law code to a linear sample.
pub fn ulaw_to_linear(ulaw: u8) -> (r: i16)
    ensures
        r == ulaw_decode(ulaw),
{
    let u: u8 = !ulaw;
    let seg: i32 = ((u as i32) & 0x70) >> 4u32;
    let m3: i32 = ((u & 0x0F) as i32) << 3u32;
    assert(0 <= seg <= 7 && 0 <= m3 <= 120) by (bit_vector)
        requires
            seg == ((u as i32) & 0x70) >> 4u32,
            m3 == ((u & 0x0F) as i32) << 3u32,
    ;
    let t: i32 = (m3 + ULAW_BIAS) << (seg as u32);
    assert(0x84 <= t <= 0x7E00) by (bit_vector)
        requires
            0 <= seg <= 7,
            0 <= m3 <= 120,
            t == ((m3 + 0x84) as i32) << (seg as u32),
    ;
    if u & 0x80 != 0 {
        (ULAW_BIAS - t) as i16
    } else {
        (t - ULAW_BIAS) as i16
    }
}

/// Encode one linear sample as an A-law code.
pub fn linear_to_alaw(linear: i16) -> (r: u8)
    ensures
        r == alaw_encode(linear),
{
    let mut lin: i32 = linear as i32;
    let mask: u8;
    if lin >= 0 {
        mask = 0x80 | ALAW_AMI_MASK;
        assert(0x80u8 | 0x55u8 == 0xD5u8) by (bit_vector);
    } else {
        mask = ALAW_AMI_MASK;
        lin = -lin - 1;
    }
    assert(lin == alaw_magnitude(linear));
    assert(0 < (lin | 0xFF) <= 0xFFFF) by (bit_vector)
        requires
            0 <= lin <= 0x7FFF,
    ;
    let tb = top_bit(lin | 0xFF);
    proof {
        lemma_segment(lin, tb);
    }
    let seg = tb - 7;
    if seg >= 8 {
        0x7F ^ mask
    } else {
        let shift: i32 = if seg != 0 { seg + 3 } else { 4 };
        (((seg << 4u32) | ((lin >> (shift as u32)) & 0x0F)) as u8) ^ mask
    }
}

/// Decode one A-law code to a linear sample.
pub fn alaw_to_linear(alaw: u8) -> (r: i16)
    ensures
        r == alaw_decode(alaw),
{
    let a: u8 = alaw ^ ALAW_AMI_MASK;
    let i: i32 = ((a & 0x0F) as i32) << 4u32;
    let seg: i32 = ((a as i32) & 0x70) >> 4u32;
    assert(0 <= seg <= 7 && 0 <= i <= 0xF0) by (bit_vector)
        requires
            seg == ((a as i32) & 0x70) >> 4u32,
            i == ((a & 0x0F) as i32) << 4u32,
    ;
    let val: i32 = if seg != 0 {
        (i + 0x108) << ((seg - 1) as u32)
    } else {
        i + 8
    };
    assert(8 <= val <= 0x7E00) by (bit_vector)
        requires
            0 <= seg <= 7,
            0 <= i <= 0xF0,
            seg != 0 ==> val == ((i + 0x108) as i32) << ((seg - 1) as u32),
            seg == 0 ==> val == i + 8,
    ;
    if a & 0x80 != 0 {
        val as i16
    } else {
        -(val as i16)
    }
}

/// Decoding a u-law code and encoding the result gives the code back, with
/// one exception: 0x7F, the second code for zero, re-encodes to the canonical
/// zero code 0xFF.
pub proof fn ulaw_decode_then_encode(c: u8)
    ensures
        ulaw_encode(ulaw_decode(c)) == (if c == 0x7F { 0xFFu8 } else { c }),
{
    assert(ulaw_encode(ulaw_decode(c)) == (if c == 0x7F { 0xFFu8 } else { c })) by (bit_vector);
}

/// Decoding an A-law code and encoding the result gives the code back.
pub proof fn alaw_decode_then_encode(c: u8)
    ensures
        alaw_encode(alaw_decode(c)) == c,
{
    assert(alaw_encode(alaw_decode(c)) == c) by (bit_vector);
}

/// Encoding a sample as u-law and decoding it is off by at most one
/// quantization step of the top segment (1024).
pub proof fn ulaw_encode_then_decode(x: i16)
    ensures
        -1024 <= ulaw_decode(ulaw_encode(x)) - x <= 1024,
{
    assert(-1024 <= ulaw_decode(ulaw_encode(x)) - x <= 1024) by (bit_vector);
}

/// Encoding a sample as A-law and decoding it is off by at most one
/// quantization step of the top segment (1024).
pub proof fn alaw_encode_then_decode(x: i16)
    ensures
        -1024 <= alaw_decode(alaw_encode(x)) - x <= 1024,
{
    assert(-1024 <= alaw_decode(alaw_encode(x)) - x <= 1024) by (bit_vector);
}

} // verus!
