//! Little-endian integers stored in byte sequences.
use vstd::prelude::*;

verus! {

/// The unsigned 16-bit little-endian value at `off` in `s`.
pub open spec fn le16(s: Seq<u8>, off: int) -> int {
    s[off] as int + 0x100 * s[off + 1] as int
}

/// The unsigned 32-bit little-endian value at `off` in `s`.
pub open spec fn le32(s: Seq<u8>, off: int) -> int {
    le16(s, off) + 0x1_0000 * le16(s, off + 2)
}

/// The unsigned 64-bit little-endian value at `off` in `s`.
pub open spec fn le64(s: Seq<u8>, off: int) -> int {
    le32(s, off) + 0x1_0000_0000 * le32(s, off + 4)
}

pub fn read_u16_le(buf: &[u8], off: usize) -> (r: u16)
    requires
        off + 2 <= buf.len(),
    ensures
        r == le16(buf@, off as int),
{
    buf[off] as u16 + 0x100 * (buf[off + 1] as u16)
}

pub fn read_u32_le(buf: &[u8], off: usize) -> (r: u32)
    requires
        off + 4 <= buf.len(),
    ensures
        r == le32(buf@, off as int),
{
    let lo = read_u16_le(buf, off);
    let hi = read_u16_le(buf, off + 2);
    lo as u32 + 0x1_0000 * (hi as u32)
}

pub fn read_u64_le(buf: &[u8], off: usize) -> (r: u64)
    requires
        off + 8 <= buf.len(),
    ensures
        r == le64(buf@, off as int),
{
    let lo = read_u32_le(buf, off);
    let hi = read_u32_le(buf, off + 4);
    lo as u64 + 0x1_0000_0000 * (hi as u64)
}

} // verus!
