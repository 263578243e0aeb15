//! Little-endian integers inside byte buffers.

use vstd::prelude::*;

verus! {

/// The `u32` stored little-endian at `s[i..i + 4]`.
pub open spec fn spec_u32_le(s: Seq<u8>, i: int) -> u32 {
    (s[i] + 256 * s[i + 1] + 65536 * s[i + 2] + 16777216 * s[i + 3]) as u32
}

/// The `u64` stored little-endian at `s[i..i + 8]`.
pub open spec fn spec_u64_le(s: Seq<u8>, i: int) -> u64 {
    (spec_u32_le(s, i) + 4294967296 * spec_u32_le(s, i + 4)) as u64
}

/// Reads the little-endian `u32` at offset `at`.
pub fn read_u32_le(raw: &[u8], at: usize) -> (r: u32)
    requires
        at + 4 <= raw@.len(),
    ensures
        r == spec_u32_le(raw@, at as int),
        r as int == raw@[at as int] + 256 * raw@[at + 1] + 65536 * raw@[at + 2] + 16777216 * raw@[at + 3],
{
    let b0 = raw[at] as u32;
    let b1 = raw[at + 1] as u32;
    let b2 = raw[at + 2] as u32;
    let b3 = raw[at + 3] as u32;
    b0 + 256 * b1 + 65536 * b2 + 16777216 * b3
}

/// Reads the little-endian `u64` at offset `at`.
pub fn read_u64_le(raw: &[u8], at: usize) -> (r: u64)
    requires
        at + 8 <= raw@.len(),
    ensures
        r == spec_u64_le(raw@, at as int),
{
    let len = raw.len();
    assert(at + 4 <= len);
    let lo = read_u32_le(raw, at) as u64;
    let hi = read_u32_le(raw, at + 4) as u64;
    assert(hi * 4294967296 <= 0xffff_ffffu64 * 4294967296) by (nonlinear_arith)
        requires hi <= 0xffff_ffffu64;
    lo + 4294967296 * hi
}

} // verus!
