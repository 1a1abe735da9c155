//! Little-endian byte marshalling. The kernel exchanges fixed-layout byte
//! records; every multi-byte field in them is little-endian.

use vstd::prelude::*;

verus! {

/// The 16-bit value encoded by two little-endian bytes.
pub open spec fn le16_of(lo: u8, hi: u8) -> u16 {
    (hi * 256 + lo) as u16
}

/// The 32-bit value encoded by four little-endian bytes.
pub open spec fn le32_of(b0: u8, b1: u8, b2: u8, b3: u8) -> u32 {
    (b3 * 0x1000000 + b2 * 0x10000 + b1 * 0x100 + b0) as u32
}

/// The two little-endian bytes of a 16-bit value.
pub open spec fn le16_bytes(v: u16) -> Seq<u8> {
    seq![(v % 256) as u8, (v / 256) as u8]
}

/// The four little-endian bytes of a 32-bit value.
pub open spec fn le32_bytes(v: u32) -> Seq<u8> {
    seq![
        (v % 0x100) as u8,
        ((v / 0x100) % 0x100) as u8,
        ((v / 0x10000) % 0x100) as u8,
        (v / 0x1000000) as u8,
    ]
}

/// Read a little-endian 16-bit field at `off`.
pub fn read_u16_le(b: &[u8], off: usize) -> (r: u16)
    requires
        off + 2 <= b@.len(),
    ensures
        r == le16_of(b@[off as int], b@[off + 1]),
{
    let lo = b[off];
    let hi = b[off + 1];
    (hi as u16) * 256 + (lo as u16)
}

/// Read a little-endian 32-bit field at `off`.
pub fn read_u32_le(b: &[u8], off: usize) -> (r: u32)
    requires
        off + 4 <= b@.len(),
    ensures
        r == le32_of(b@[off as int], b@[off + 1], b@[off + 2], b@[off + 3]),
{
    let b0 = b[off];
    let b1 = b[off + 1];
    let b2 = b[off + 2];
    let b3 = b[off + 3];
    (b3 as u32) * 0x1000000 + (b2 as u32) * 0x10000 + (b1 as u32) * 0x100 + (b0 as u32)
}

/// Append the two little-endian bytes of `v` to `out`.
pub fn push_u16_le(out: &mut Vec<u8>, v: u16)
    ensures
        final(out)@ == old(out)@ + le16_bytes(v),
{
    out.push((v % 256) as u8);
    out.push((v / 256) as u8);
    proof {
        assert(out@ =~= old(out)@ + le16_bytes(v));
    }
}

/// Append the four little-endian bytes of `v` to `out`.
pub fn push_u32_le(out: &mut Vec<u8>, v: u32)
    ensures
        final(out)@ == old(out)@ + le32_bytes(v),
{
    out.push((v % 0x100) as u8);
    out.push(((v / 0x100) % 0x100) as u8);
    out.push(((v / 0x10000) % 0x100) as u8);
    out.push((v / 0x1000000) as u8);
    proof {
        assert(out@ =~= old(out)@ + le32_bytes(v));
    }
}

} // verus!
