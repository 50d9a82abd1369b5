//! Little-endian, unaligned, fixed-offset byte access.
//!
//! The wire format carries multi-byte numbers little-endian at documented
//! offsets with no alignment; these helpers read them and copy fixed-width
//! fields, bounds-checked against the buffer.
use vstd::prelude::*;

verus! {

/// The value of two little-endian bytes.
pub open spec fn spec_u16_le(b: Seq<u8>) -> int {
    b[0] + 0x100 * b[1]
}

/// The value of two little-endian bytes read as a signed (two's complement)
/// 16-bit number.
pub open spec fn spec_i16_le(b: Seq<u8>) -> int {
    if spec_u16_le(b) < 0x8000 {
        spec_u16_le(b)
    } else {
        spec_u16_le(b) - 0x10000
    }
}

/// The value of four little-endian bytes.
pub open spec fn spec_u32_le(b: Seq<u8>) -> int {
    b[0] + 0x100 * b[1] + 0x1_0000 * b[2] + 0x100_0000 * b[3]
}

/// Reads an unsigned 16-bit little-endian number at `offset`.
pub fn read_u16_le(bytes: &[u8], offset: usize) -> (x: u16)
    requires
        offset + 2 <= bytes@.len(),
    ensures
        x == spec_u16_le(bytes@.subrange(offset as int, offset + 2)),
{
    let _blen: usize = bytes.len();
    let b0 = bytes[offset] as u16;
    let b1 = bytes[offset + 1] as u16;
    b0 + 0x100 * b1
}

/// Reads a signed 16-bit little-endian number at `offset`.
pub fn read_i16_le(bytes: &[u8], offset: usize) -> (x: i16)
    requires
        offset + 2 <= bytes@.len(),
    ensures
        x as int == spec_i16_le(bytes@.subrange(offset as int, offset + 2)),
{
    let v = read_u16_le(bytes, offset);
    if v < 0x8000 {
        v as i16
    } else {
        ((v as i32) - 0x1_0000) as i16
    }
}

/// Reads an unsigned 32-bit little-endian number at `offset`.
pub fn read_u32_le(bytes: &[u8], offset: usize) -> (x: u32)
    requires
        offset + 4 <= bytes@.len(),
    ensures
        x == spec_u32_le(bytes@.subrange(offset as int, offset + 4)),
{
    let _blen: usize = bytes.len();
    let b0 = bytes[offset] as u32;
    let b1 = bytes[offset + 1] as u32;
    let b2 = bytes[offset + 2] as u32;
    let b3 = bytes[offset + 3] as u32;
    b0 + 0x100 * b1 + 0x1_0000 * b2 + 0x100_0000 * b3
}

/// Copies `N` bytes at `offset` out of a buffer into a fixed-width field.
pub(crate) fn read_array<const N: usize>(bytes: &[u8], offset: usize) -> (r: [u8; N])
    requires
        offset + N <= bytes@.len(),
    ensures
        r@ == bytes@.subrange(offset as int, offset + N),
{
    let blen = bytes.len();
    let mut r: [u8; N] = [0u8; N];
    let mut i: usize = 0;
    while i < N
        invariant
            offset + N <= blen,
            blen == bytes@.len(),
            0 <= i <= N,
            r@.len() == N,
            forall|j: int| 0 <= j < i ==> r@[j] == bytes@[offset + j],
        decreases N - i,
    {
        r[i] = bytes[offset + i];
        i = i + 1;
    }
    assert(r@ =~= bytes@.subrange(offset as int, offset + N));
    r
}

/// Appends a fixed-width field to a byte vector.
pub(crate) fn push_array<const N: usize>(v: &mut Vec<u8>, field: &[u8; N])
    ensures
        final(v)@ == old(v)@ + field@,
{
    let mut i: usize = 0;
    while i < N
        invariant
            0 <= i <= N,
            v@ == old(v)@ + field@.subrange(0, i as int),
        decreases N - i,
    {
        v.push(field[i]);
        i = i + 1;
        assert(v@ =~= old(v)@ + field@.subrange(0, i as int));
    }
    assert(v@ =~= old(v)@ + field@);
}

/// Copies a byte vector of exactly `N` bytes into its array form.
pub(crate) fn to_array<const N: usize>(src: &Vec<u8>) -> (r: [u8; N])
    requires
        src@.len() == N,
    ensures
        r@ == src@,
{
    let mut r: [u8; N] = [0u8; N];
    let mut i: usize = 0;
    while i < N
        invariant
            src@.len() == N,
            0 <= i <= N,
            r@.len() == N,
            forall|j: int| 0 <= j < i ==> r@[j] == src@[j],
        decreases N - i,
    {
        r[i] = src[i];
        i = i + 1;
    }
    assert(r@ =~= src@);
    r
}

} // verus!
