//! Small helpers for the byte level of the control protocol: little-endian
//! integer fields appended to a growing buffer, and the two's-complement view
//! of a signed rate index as a raw byte.

use vstd::prelude::*;

verus! {

/// The raw byte that carries a signed rate index on the wire.
pub open spec fn i8_to_byte(x: i8) -> u8 {
    if x >= 0 {
        x as u8
    } else {
        (x + 256) as u8
    }
}

/// The signed rate index read back from its raw wire byte.
pub open spec fn byte_to_i8(b: u8) -> i8 {
    if b < 128 {
        b as i8
    } else {
        (b - 256) as i8
    }
}

pub broadcast proof fn lemma_i8_byte_round_trip(x: i8)
    ensures
        #[trigger] byte_to_i8(i8_to_byte(x)) == x,
{
}

pub broadcast proof fn lemma_byte_i8_round_trip(b: u8)
    ensures
        #[trigger] i8_to_byte(byte_to_i8(b)) == b,
{
}

pub fn i8_to_byte_exec(x: i8) -> (r: u8)
    ensures
        r == i8_to_byte(x),
{
    if x >= 0 {
        x as u8
    } else {
        ((x as i16) + 256) as u8
    }
}

pub fn byte_to_i8_exec(b: u8) -> (r: i8)
    ensures
        r == byte_to_i8(b),
{
    if b < 128 {
        b as i8
    } else {
        ((b as i16) - 256) as i8
    }
}

/// Appends the two little-endian bytes of `x` to `out`.
pub fn push_u16_le(out: &mut Vec<u8>, x: u16)
    ensures
        final(out)@ == old(out)@ + vstd::bytes::spec_u16_to_le_bytes(x),
{
    proof {
        vstd::bytes::lemma_auto_spec_u16_to_from_le_bytes();
    }
    let mut b = vstd::bytes::u16_to_le_bytes(x);
    out.append(&mut b);
}

/// Appends the four little-endian bytes of `x` to `out`.
pub fn push_u32_le(out: &mut Vec<u8>, x: u32)
    ensures
        final(out)@ == old(out)@ + vstd::bytes::spec_u32_to_le_bytes(x),
{
    proof {
        vstd::bytes::lemma_auto_spec_u32_to_from_le_bytes();
    }
    let mut b = vstd::bytes::u32_to_le_bytes(x);
    out.append(&mut b);
}

/// Appends the eight little-endian bytes of `x` to `out`.
pub fn push_u64_le(out: &mut Vec<u8>, x: u64)
    ensures
        final(out)@ == old(out)@ + vstd::bytes::spec_u64_to_le_bytes(x),
{
    proof {
        vstd::bytes::lemma_auto_spec_u64_to_from_le_bytes();
    }
    let mut b = vstd::bytes::u64_to_le_bytes(x);
    out.append(&mut b);
}

/// Reads the little-endian `u16` stored at `off` in `buf`.
pub fn read_u16_le(buf: &[u8], off: usize) -> (r: u16)
    requires
        off + 2 <= buf@.len(),
    ensures
        r == vstd::bytes::spec_u16_from_le_bytes(buf@.subrange(off as int, off + 2)),
{
    let n: usize = buf.len();
    vstd::bytes::u16_from_le_bytes(&buf[off..off + 2])
}

/// Reads the little-endian `u32` stored at `off` in `buf`.
pub fn read_u32_le(buf: &[u8], off: usize) -> (r: u32)
    requires
        off + 4 <= buf@.len(),
    ensures
        r == vstd::bytes::spec_u32_from_le_bytes(buf@.subrange(off as int, off + 4)),
{
    let n: usize = buf.len();
    vstd::bytes::u32_from_le_bytes(&buf[off..off + 4])
}

/// Reads the little-endian `u64` stored at `off` in `buf`.
pub fn read_u64_le(buf: &[u8], off: usize) -> (r: u64)
    requires
        off + 8 <= buf@.len(),
    ensures
        r == vstd::bytes::spec_u64_from_le_bytes(buf@.subrange(off as int, off + 8)),
{
    let n: usize = buf.len();
    vstd::bytes::u64_from_le_bytes(&buf[off..off + 8])
}

/// Copies `src[from..from + n]` onto the end of `out`.
pub fn push_slice_range(out: &mut Vec<u8>, src: &[u8], from: usize, n: usize)
    requires
        from + n <= src@.len(),
    ensures
        final(out)@ == old(out)@ + src@.subrange(from as int, from + n),
{
    let len: usize = src.len();
    out.extend_from_slice(&src[from..from + n])
}

} // verus!
