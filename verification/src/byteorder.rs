//! Fixed-width integer encodings used on the wire: big-endian for the Upper
//! Layer PDU framing, little-endian for the Implicit VR command sets.

use vstd::prelude::*;

verus! {

/// The two bytes of `x` in big-endian order.
pub open spec fn spec_u16_be(x: u16) -> Seq<u8> {
    seq![(x / 256) as u8, (x % 256) as u8]
}

/// The two bytes of `x` in little-endian order.
pub open spec fn spec_u16_le(x: u16) -> Seq<u8> {
    seq![(x % 256) as u8, (x / 256) as u8]
}

/// The four bytes of `x` in big-endian order.
pub open spec fn spec_u32_be(x: u32) -> Seq<u8> {
    seq![
        (x / 0x1000000) as u8,
        ((x / 0x10000) % 256) as u8,
        ((x / 256) % 256) as u8,
        (x % 256) as u8,
    ]
}

/// The four bytes of `x` in little-endian order.
pub open spec fn spec_u32_le(x: u32) -> Seq<u8> {
    seq![
        (x % 256) as u8,
        ((x / 256) % 256) as u8,
        ((x / 0x10000) % 256) as u8,
        (x / 0x1000000) as u8,
    ]
}

/// The `u16` denoted by two bytes read in big-endian order.
pub open spec fn spec_u16_from_be(b0: u8, b1: u8) -> u16 {
    (b0 * 256 + b1) as u16
}

/// The `u16` denoted by two bytes read in little-endian order.
pub open spec fn spec_u16_from_le(b0: u8, b1: u8) -> u16 {
    (b1 * 256 + b0) as u16
}

/// The `u32` denoted by four bytes read in big-endian order.
pub open spec fn spec_u32_from_be(b0: u8, b1: u8, b2: u8, b3: u8) -> u32 {
    (((b0 * 256 + b1) * 256 + b2) * 256 + b3) as u32
}

/// The `u32` denoted by four bytes read in little-endian order.
pub open spec fn spec_u32_from_le(b0: u8, b1: u8, b2: u8, b3: u8) -> u32 {
    (((b3 * 256 + b2) * 256 + b1) * 256 + b0) as u32
}

/// Reading back the bytes of `spec_u16_be` yields the original value.
pub proof fn lemma_u16_be_round_trip(x: u16)
    ensures
        spec_u16_from_be(spec_u16_be(x)[0], spec_u16_be(x)[1]) == x,
{
}

/// Reading back the bytes of `spec_u32_be` yields the original value.
pub proof fn lemma_u32_be_round_trip(x: u32)
    ensures
        spec_u32_from_be(
            spec_u32_be(x)[0],
            spec_u32_be(x)[1],
            spec_u32_be(x)[2],
            spec_u32_be(x)[3],
        ) == x,
{
}

/// Reading back the bytes of `spec_u16_le` yields the original value.
pub proof fn lemma_u16_le_round_trip(x: u16)
    ensures
        spec_u16_from_le(spec_u16_le(x)[0], spec_u16_le(x)[1]) == x,
{
}

/// Reading back the bytes of `spec_u32_le` yields the original value.
pub proof fn lemma_u32_le_round_trip(x: u32)
    ensures
        spec_u32_from_le(
            spec_u32_le(x)[0],
            spec_u32_le(x)[1],
            spec_u32_le(x)[2],
            spec_u32_le(x)[3],
        ) == x,
{
}

/// Appends the big-endian encoding of `x` to `out`.
pub fn push_u16_be(out: &mut Vec<u8>, x: u16)
    ensures
        final(out)@ == old(out)@ + spec_u16_be(x),
{
    out.push((x / 256) as u8);
    out.push((x % 256) as u8);
    assert(out@ =~= old(out)@ + spec_u16_be(x));
}

/// Appends the big-endian encoding of `x` to `out`.
pub fn push_u32_be(out: &mut Vec<u8>, x: u32)
    ensures
        final(out)@ == old(out)@ + spec_u32_be(x),
{
    out.push((x / 0x1000000) as u8);
    out.push(((x / 0x10000) % 256) as u8);
    out.push(((x / 256) % 256) as u8);
    out.push((x % 256) as u8);
    assert(out@ =~= old(out)@ + spec_u32_be(x));
}

/// Appends the little-endian encoding of `x` to `out`.
pub fn push_u16_le(out: &mut Vec<u8>, x: u16)
    ensures
        final(out)@ == old(out)@ + spec_u16_le(x),
{
    out.push((x % 256) as u8);
    out.push((x / 256) as u8);
    assert(out@ =~= old(out)@ + spec_u16_le(x));
}

/// Appends the little-endian encoding of `x` to `out`.
pub fn push_u32_le(out: &mut Vec<u8>, x: u32)
    ensures
        final(out)@ == old(out)@ + spec_u32_le(x),
{
    out.push((x % 256) as u8);
    out.push(((x / 256) % 256) as u8);
    out.push(((x / 0x10000) % 256) as u8);
    out.push((x / 0x1000000) as u8);
    assert(out@ =~= old(out)@ + spec_u32_le(x));
}

/// Reads a big-endian `u16` from `b[i]` and `b[i + 1]`.
pub fn read_u16_be(b: &[u8], i: usize) -> (x: u16)
    requires
        i + 2 <= b@.len(),
    ensures
        x == spec_u16_from_be(b@[i as int], b@[i + 1]),
{
    let hi = b[i];
    let lo = b[i + 1];
    (hi as u16) * 256 + (lo as u16)
}

/// Reads a big-endian `u32` from the four bytes starting at `b[i]`.
pub fn read_u32_be(b: &[u8], i: usize) -> (x: u32)
    requires
        i + 4 <= b@.len(),
    ensures
        x == spec_u32_from_be(b@[i as int], b@[i + 1], b@[i + 2], b@[i + 3]),
{
    let b0 = b[i] as u32;
    let b1 = b[i + 1] as u32;
    let b2 = b[i + 2] as u32;
    let b3 = b[i + 3] as u32;
    ((b0 * 256 + b1) * 256 + b2) * 256 + b3
}

/// Reads a little-endian `u16` from `b[i]` and `b[i + 1]`.
pub fn read_u16_le(b: &[u8], i: usize) -> (x: u16)
    requires
        i + 2 <= b@.len(),
    ensures
        x == spec_u16_from_le(b@[i as int], b@[i + 1]),
{
    let lo = b[i];
    let hi = b[i + 1];
    (hi as u16) * 256 + (lo as u16)
}

/// Reads a little-endian `u32` from the four bytes starting at `b[i]`.
pub fn read_u32_le(b: &[u8], i: usize) -> (x: u32)
    requires
        i + 4 <= b@.len(),
    ensures
        x == spec_u32_from_le(b@[i as int], b@[i + 1], b@[i + 2], b@[i + 3]),
{
    let b0 = b[i] as u32;
    let b1 = b[i + 1] as u32;
    let b2 = b[i + 2] as u32;
    let b3 = b[i + 3] as u32;
    ((b3 * 256 + b2) * 256 + b1) * 256 + b0
}

} // verus!
