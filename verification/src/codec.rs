//! Byte-level framing primitives: big-endian encodings of the wire's
//! primitive types, as spec functions, with verified encoders and decoders
//! over byte buffers and round-trip lemmas.
//!
//! IEEE-754 fields on the wire (f64, f32) travel as their big-endian bit
//! patterns; the library frames them as `u64` / `u32` bit patterns and never
//! computes on them.

use vstd::prelude::*;

verus! {

/// Big-endian byte sequence of a 16-bit value: most significant byte first.
pub open spec fn be_u16_bytes(v: u16) -> Seq<u8> {
    seq![(v >> 8) as u8, (v & 0xff) as u8]
}

/// Big-endian byte sequence of a 32-bit value.
pub open spec fn be_u32_bytes(v: u32) -> Seq<u8> {
    seq![
        ((v >> 24) & 0xff) as u8,
        ((v >> 16) & 0xff) as u8,
        ((v >> 8) & 0xff) as u8,
        (v & 0xff) as u8,
    ]
}

/// Big-endian byte sequence of a 64-bit value.
pub open spec fn be_u64_bytes(v: u64) -> Seq<u8> {
    seq![
        ((v >> 56) & 0xff) as u8,
        ((v >> 48) & 0xff) as u8,
        ((v >> 40) & 0xff) as u8,
        ((v >> 32) & 0xff) as u8,
        ((v >> 24) & 0xff) as u8,
        ((v >> 16) & 0xff) as u8,
        ((v >> 8) & 0xff) as u8,
        (v & 0xff) as u8,
    ]
}

/// Big-endian byte sequence of a signed 16-bit value: the two's-complement
/// bit pattern, most significant byte first.
pub open spec fn be_i16_bytes(v: i16) -> Seq<u8> {
    be_u16_bytes(v as u16)
}

/// Big-endian byte sequence of a signed 32-bit value.
pub open spec fn be_i32_bytes(v: i32) -> Seq<u8> {
    be_u32_bytes(v as u32)
}

/// The 16-bit value whose big-endian bytes stand at `i` in `b`.
pub open spec fn be_u16_at(b: Seq<u8>, i: int) -> u16
    recommends
        0 <= i,
        i + 2 <= b.len(),
{
    ((b[i] as u16) << 8) | (b[i + 1] as u16)
}

/// The 32-bit value whose big-endian bytes stand at `i` in `b`.
pub open spec fn be_u32_at(b: Seq<u8>, i: int) -> u32
    recommends
        0 <= i,
        i + 4 <= b.len(),
{
    ((b[i] as u32) << 24) | ((b[i + 1] as u32) << 16) | ((b[i + 2] as u32) << 8) | (b[i
        + 3] as u32)
}

/// The 64-bit value whose big-endian bytes stand at `i` in `b`.
pub open spec fn be_u64_at(b: Seq<u8>, i: int) -> u64
    recommends
        0 <= i,
        i + 8 <= b.len(),
{
    ((b[i] as u64) << 56) | ((b[i + 1] as u64) << 48) | ((b[i + 2] as u64) << 40) | ((b[i
        + 3] as u64) << 32) | ((b[i + 4] as u64) << 24) | ((b[i + 5] as u64) << 16) | ((b[i
        + 6] as u64) << 8) | (b[i + 7] as u64)
}

/// The signed 16-bit value whose big-endian bytes stand at `i` in `b`.
pub open spec fn be_i16_at(b: Seq<u8>, i: int) -> i16
    recommends
        0 <= i,
        i + 2 <= b.len(),
{
    be_u16_at(b, i) as i16
}

/// The signed 32-bit value whose big-endian bytes stand at `i` in `b`.
pub open spec fn be_i32_at(b: Seq<u8>, i: int) -> i32
    recommends
        0 <= i,
        i + 4 <= b.len(),
{
    be_u32_at(b, i) as i32
}

/// Decoding the big-endian bytes of a 16-bit value yields that value.
pub proof fn lemma_u16_round_trip(v: u16)
    ensures
        be_u16_at(be_u16_bytes(v), 0) == v,
{
    assert(((((v >> 8) as u8) as u16) << 8) | (((v & 0xff) as u8) as u16) == v) by (bit_vector);
}

/// Decoding the big-endian bytes of a 32-bit value yields that value.
pub proof fn lemma_u32_round_trip(v: u32)
    ensures
        be_u32_at(be_u32_bytes(v), 0) == v,
{
    assert((((((v >> 24) & 0xff) as u8) as u32) << 24) | (((((v >> 16) & 0xff) as u8) as u32)
        << 16) | (((((v >> 8) & 0xff) as u8) as u32) << 8) | (((v & 0xff) as u8) as u32)
        == v) by (bit_vector);
}

/// Decoding the big-endian bytes of a 64-bit value yields that value.
pub proof fn lemma_u64_round_trip(v: u64)
    ensures
        be_u64_at(be_u64_bytes(v), 0) == v,
{
    assert((((((v >> 56) & 0xff) as u8) as u64) << 56) | (((((v >> 48) & 0xff) as u8) as u64)
        << 48) | (((((v >> 40) & 0xff) as u8) as u64) << 40) | (((((v >> 32) & 0xff) as u8) as u64)
        << 32) | (((((v >> 24) & 0xff) as u8) as u64) << 24) | (((((v >> 16) & 0xff) as u8) as u64)
        << 16) | (((((v >> 8) & 0xff) as u8) as u64) << 8) | (((v & 0xff) as u8) as u64)
        == v) by (bit_vector);
}

/// Decoding the big-endian bytes of a signed 16-bit value yields that value.
pub proof fn lemma_i16_round_trip(v: i16)
    ensures
        be_i16_at(be_i16_bytes(v), 0) == v,
{
    lemma_u16_round_trip(v as u16);
    assert(((v as u16) as i16) == v) by (bit_vector);
}

/// Decoding the big-endian bytes of a signed 32-bit value yields that value.
pub proof fn lemma_i32_round_trip(v: i32)
    ensures
        be_i32_at(be_i32_bytes(v), 0) == v,
{
    lemma_u32_round_trip(v as u32);
    assert(((v as u32) as i32) == v) by (bit_vector);
}

/// Appends one byte to the buffer.
pub fn write_u8(out: &mut Vec<u8>, v: u8)
    ensures
        final(out)@ == old(out)@ + seq![v],
{
    out.push(v);
    assert(out@ =~= old(out)@ + seq![v]);
}

/// Appends the big-endian bytes of a 16-bit value.
pub fn write_be_u16(out: &mut Vec<u8>, v: u16)
    ensures
        final(out)@ == old(out)@ + be_u16_bytes(v),
{
    out.push((v >> 8) as u8);
    out.push((v & 0xff) as u8);
    assert(out@ =~= old(out)@ + be_u16_bytes(v));
}

/// Appends the big-endian bytes of a 32-bit value.
pub fn write_be_u32(out: &mut Vec<u8>, v: u32)
    ensures
        final(out)@ == old(out)@ + be_u32_bytes(v),
{
    out.push(((v >> 24) & 0xff) as u8);
    out.push(((v >> 16) & 0xff) as u8);
    out.push(((v >> 8) & 0xff) as u8);
    out.push((v & 0xff) as u8);
    assert(out@ =~= old(out)@ + be_u32_bytes(v));
}

/// Appends the big-endian bytes of a 64-bit value.
pub fn write_be_u64(out: &mut Vec<u8>, v: u64)
    ensures
        final(out)@ == old(out)@ + be_u64_bytes(v),
{
    out.push(((v >> 56) & 0xff) as u8);
    out.push(((v >> 48) & 0xff) as u8);
    out.push(((v >> 40) & 0xff) as u8);
    out.push(((v >> 32) & 0xff) as u8);
    out.push(((v >> 24) & 0xff) as u8);
    out.push(((v >> 16) & 0xff) as u8);
    out.push(((v >> 8) & 0xff) as u8);
    out.push((v & 0xff) as u8);
    assert(out@ =~= old(out)@ + be_u64_bytes(v));
}

/// Appends the big-endian bytes of a signed 16-bit value.
pub fn write_be_i16(out: &mut Vec<u8>, v: i16)
    ensures
        final(out)@ == old(out)@ + be_i16_bytes(v),
{
    write_be_u16(out, v as u16);
}

/// Appends the big-endian bytes of a signed 32-bit value.
pub fn write_be_i32(out: &mut Vec<u8>, v: i32)
    ensures
        final(out)@ == old(out)@ + be_i32_bytes(v),
{
    write_be_u32(out, v as u32);
}

/// Reads one byte at `pos`; `None` when the buffer ends before it.
pub fn read_u8_at(buf: &Vec<u8>, pos: usize) -> (r: Option<(u8, usize)>)
    ensures
        match r {
            Some(vp) => pos + 1 <= buf@.len() && vp.1 == pos + 1 && vp.0 == buf@[pos as int],
            None => pos + 1 > buf@.len(),
        },
{
    if pos < buf.len() {
        Some((buf[pos], pos + 1))
    } else {
        None
    }
}

/// Reads a big-endian 16-bit value at `pos`; `None` when the buffer ends
/// before its last byte.
pub fn read_be_u16_at(buf: &Vec<u8>, pos: usize) -> (r: Option<(u16, usize)>)
    ensures
        match r {
            Some(vp) => pos + 2 <= buf@.len() && vp.1 == pos + 2 && vp.0 == be_u16_at(
                buf@,
                pos as int,
            ),
            None => pos + 2 > buf@.len(),
        },
{
    if pos < buf.len() && buf.len() - pos >= 2 {
        let v: u16 = ((buf[pos] as u16) << 8) | (buf[pos + 1] as u16);
        Some((v, pos + 2))
    } else {
        None
    }
}

/// Reads a big-endian 32-bit value at `pos`.
pub fn read_be_u32_at(buf: &Vec<u8>, pos: usize) -> (r: Option<(u32, usize)>)
    ensures
        match r {
            Some(vp) => pos + 4 <= buf@.len() && vp.1 == pos + 4 && vp.0 == be_u32_at(
                buf@,
                pos as int,
            ),
            None => pos + 4 > buf@.len(),
        },
{
    if pos < buf.len() && buf.len() - pos >= 4 {
        let v: u32 = ((buf[pos] as u32) << 24) | ((buf[pos + 1] as u32) << 16) | ((buf[pos
            + 2] as u32) << 8) | (buf[pos + 3] as u32);
        Some((v, pos + 4))
    } else {
        None
    }
}

/// Reads a big-endian 64-bit value at `pos`.
pub fn read_be_u64_at(buf: &Vec<u8>, pos: usize) -> (r: Option<(u64, usize)>)
    ensures
        match r {
            Some(vp) => pos + 8 <= buf@.len() && vp.1 == pos + 8 && vp.0 == be_u64_at(
                buf@,
                pos as int,
            ),
            None => pos + 8 > buf@.len(),
        },
{
    if pos < buf.len() && buf.len() - pos >= 8 {
        let v: u64 = ((buf[pos] as u64) << 56) | ((buf[pos + 1] as u64) << 48) | ((buf[pos
            + 2] as u64) << 40) | ((buf[pos + 3] as u64) << 32) | ((buf[pos + 4] as u64) << 24) | (
        (buf[pos + 5] as u64) << 16) | ((buf[pos + 6] as u64) << 8) | (buf[pos + 7] as u64);
        Some((v, pos + 8))
    } else {
        None
    }
}

} // verus!
