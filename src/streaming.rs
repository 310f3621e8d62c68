//! The uniform push/pull contract over native engines: buffer lengths handed
//! to native calls and the tri-state bit convention.
use vstd::prelude::*;

verus! {

/// The count handed to a native bulk call for a buffer of `len` items: the
/// length, capped at the largest native `int`.
pub fn native_len(len: usize) -> (r: i32)
    ensures
        r == (if len <= i32::MAX as usize { len as int } else { i32::MAX as int }),
{
    if len <= i32::MAX as usize {
        len as i32
    } else {
        i32::MAX
    }
}

/// One step of a bit-level stream.
#[derive(Debug, Clone, Copy, PartialEq, Eq, Structural)]
pub enum BitStep {
    /// The next bit.
    Bit(bool),
    /// No more bits; the native status value that said so.
    End(i32),
}

/// Read a native bit-level return: a negative value means no more bits,
/// zero is a 0 bit and any other value a 1 bit.
pub fn bit_step(rc: i32) -> (r: BitStep)
    ensures
        rc < 0 ==> r == BitStep::End(rc),
        rc >= 0 ==> r == BitStep::Bit(rc != 0),
{
    if rc < 0 {
        BitStep::End(rc)
    } else {
        BitStep::Bit(rc != 0)
    }
}

} // verus!
