//! Big-endian byte encoding used by the RTP and discovery wire formats.

use vstd::prelude::*;

verus! {

/// The two big-endian bytes of a 16-bit value.
pub open spec fn spec_u16_be(x: u16) -> Seq<u8> {
    seq![(x / 256) as u8, (x % 256) as u8]
}

/// The four big-endian bytes of a 32-bit value.
pub open spec fn spec_u32_be(x: u32) -> Seq<u8> {
    seq![
        (x / 0x1000000) as u8,
        ((x / 0x10000) % 256) as u8,
        ((x / 256) % 256) as u8,
        (x % 256) as u8,
    ]
}

/// The 16-bit value read big-endian from two bytes.
pub open spec fn spec_be_u16(b0: u8, b1: u8) -> u16 {
    (b0 * 256 + b1) as u16
}

/// The 32-bit value read big-endian from four bytes.
pub open spec fn spec_be_u32(b0: u8, b1: u8, b2: u8, b3: u8) -> u32 {
    (b0 * 0x1000000 + b1 * 0x10000 + b2 * 256 + b3) as u32
}

/// Appends the two big-endian bytes of `x` to `out`.
pub fn push_u16_be(out: &mut Vec<u8>, x: u16)
    ensures
        final(out)@ == old(out)@ + spec_u16_be(x),
{
    out.push((x / 256) as u8);
    out.push((x % 256) as u8);
    proof {
        assert(out@ =~= old(out)@ + spec_u16_be(x));
    }
}

/// Appends the four big-endian bytes of `x` to `out`.
pub fn push_u32_be(out: &mut Vec<u8>, x: u32)
    ensures
        final(out)@ == old(out)@ + spec_u32_be(x),
{
    out.push((x / 0x1000000) as u8);
    out.push(((x / 0x10000) % 256) as u8);
    out.push(((x / 256) % 256) as u8);
    out.push((x % 256) as u8);
    proof {
        assert(out@ =~= old(out)@ + spec_u32_be(x));
    }
}

/// Reads a 16-bit big-endian value at offset `i`.
pub fn read_u16_be(b: &[u8], i: usize) -> (r: u16)
    requires
        i + 2 <= b@.len(),
    ensures
        r == spec_be_u16(b@[i as int], b@[i + 1]),
{
    let hi: u16 = b[i] as u16;
    let lo: u16 = b[i + 1] as u16;
    hi * 256 + lo
}

/// Reads a 32-bit big-endian value at offset `i`.
pub fn read_u32_be(b: &[u8], i: usize) -> (r: u32)
    requires
        i + 4 <= b@.len(),
    ensures
        r == spec_be_u32(b@[i as int], b@[i + 1], b@[i + 2], b@[i + 3]),
{
    let b0: u32 = b[i] as u32;
    let b1: u32 = b[i + 1] as u32;
    let b2: u32 = b[i + 2] as u32;
    let b3: u32 = b[i + 3] as u32;
    b0 * 0x1000000 + b1 * 0x10000 + b2 * 256 + b3
}

/// Writing a 16-bit value big-endian and reading it back is the identity.
pub proof fn lemma_u16_be_round_trip(x: u16)
    ensures
        spec_be_u16(spec_u16_be(x)[0], spec_u16_be(x)[1]) == x,
{
}

/// Writing a 32-bit value big-endian and reading it back is the identity.
pub proof fn lemma_u32_be_round_trip(x: u32)
    ensures
        spec_be_u32(spec_u32_be(x)[0], spec_u32_be(x)[1], spec_u32_be(x)[2], spec_u32_be(x)[3])
            == x,
{
}

/// The 16-bit value read little-endian from two bytes, as a signed count.
pub open spec fn spec_le_i16(b0: u8, b1: u8) -> i16 {
    ((b1 as u16) * 256 + (b0 as u16)) as i16
}

/// The 32-bit value read little-endian from four bytes, as a signed count.
pub open spec fn spec_le_i32(b0: u8, b1: u8, b2: u8, b3: u8) -> i32 {
    ((b3 as u32) * 0x1000000 + (b2 as u32) * 0x10000 + (b1 as u32) * 256 + (b0 as u32)) as i32
}

/// Reads a 16-bit little-endian signed value at offset `i`.
pub fn read_i16_le(b: &[u8], i: usize) -> (r: i16)
    requires
        i + 2 <= b@.len(),
    ensures
        r == spec_le_i16(b@[i as int], b@[i + 1]),
{
    let lo: u16 = b[i] as u16;
    let hi: u16 = b[i + 1] as u16;
    (hi * 256 + lo) as i16
}

/// Reads a 32-bit little-endian signed value at offset `i`.
pub fn read_i32_le(b: &[u8], i: usize) -> (r: i32)
    requires
        i + 4 <= b@.len(),
    ensures
        r == spec_le_i32(b@[i as int], b@[i + 1], b@[i + 2], b@[i + 3]),
{
    let b0: u32 = b[i] as u32;
    let b1: u32 = b[i + 1] as u32;
    let b2: u32 = b[i + 2] as u32;
    let b3: u32 = b[i + 3] as u32;
    (b3 * 0x1000000 + b2 * 0x10000 + b1 * 256 + b0) as i32
}

} // verus!
