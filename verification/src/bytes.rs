//! Little endian registers in a byte buffer.

use vstd::prelude::*;

verus! {

/// The 16-bit register whose low byte is `bytes[at]`.
pub open spec fn word(bytes: Seq<u8>, at: int) -> u16
    recommends
        0 <= at,
        at + 2 <= bytes.len(),
{
    (bytes[at] + 0x100 * bytes[at + 1]) as u16
}

/// The 32-bit register whose lowest byte is `bytes[at]`.
pub open spec fn dword(bytes: Seq<u8>, at: int) -> u32
    recommends
        0 <= at,
        at + 4 <= bytes.len(),
{
    (bytes[at] + 0x100 * bytes[at + 1] + 0x1_0000 * bytes[at + 2] + 0x100_0000 * bytes[at + 3]) as u32
}

/// The 64-bit register whose lowest byte is `bytes[at]`.
pub open spec fn qword(bytes: Seq<u8>, at: int) -> u64
    recommends
        0 <= at,
        at + 8 <= bytes.len(),
{
    (dword(bytes, at) + 0x1_0000_0000 * dword(bytes, at + 4)) as u64
}

/// Reads the 16-bit register at `at`.
pub(crate) fn read_word(bytes: &[u8], at: usize) -> (value: u16)
    requires
        at + 2 <= bytes.len(),
    ensures
        value == word(bytes@, at as int),
{
    let low: u16 = bytes[at] as u16;
    let high: u16 = bytes[at + 1] as u16;
    low + 0x100 * high
}

/// Reads the 32-bit register at `at`.
pub(crate) fn read_dword(bytes: &[u8], at: usize) -> (value: u32)
    requires
        at + 4 <= bytes.len(),
    ensures
        value == dword(bytes@, at as int),
{
    let b0: u32 = bytes[at] as u32;
    let b1: u32 = bytes[at + 1] as u32;
    let b2: u32 = bytes[at + 2] as u32;
    let b3: u32 = bytes[at + 3] as u32;
    b0 + 0x100 * b1 + 0x1_0000 * b2 + 0x100_0000 * b3
}

/// Reads the 64-bit register at `at`.
pub(crate) fn read_qword(bytes: &[u8], at: usize) -> (value: u64)
    requires
        at + 8 <= bytes.len(),
    ensures
        value == qword(bytes@, at as int),
{
    let low: u64 = read_dword(bytes, at) as u64;
    let high: u64 = read_dword(bytes, at + 4) as u64;
    low + 0x1_0000_0000 * high
}

} // verus!
