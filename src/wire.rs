//! Little-endian field encodings shared by every frame, and the readers
//! that pull fixed-width integers out of a partially received frame.
use nom::number::streaming;
use vstd::prelude::*;

verus! {

/// Little-endian bytes of a 16-bit value.
pub open spec fn u16_bytes(x: u16) -> Seq<u8> {
    seq![(x % 256) as u8, (x / 256) as u8]
}

/// Little-endian bytes of a 32-bit value.
pub open spec fn u32_bytes(x: u32) -> Seq<u8> {
    seq![(x % 256) as u8, ((x / 256) % 256) as u8, ((x / 65536) % 256) as u8, (x / 16777216) as u8]
}

/// Little-endian bytes of a signed 32-bit value (two's complement).
pub open spec fn i32_bytes(x: i32) -> Seq<u8> {
    u32_bytes(x as u32)
}

/// The 16-bit value stored little-endian at `s[i..i + 2]`.
pub open spec fn u16_at(s: Seq<u8>, i: int) -> u16 {
    (s[i] + 256 * s[i + 1]) as u16
}

/// The 32-bit value stored little-endian at `s[i..i + 4]`.
pub open spec fn u32_at(s: Seq<u8>, i: int) -> u32 {
    (s[i] + 256 * s[i + 1] + 65536 * s[i + 2] + 16777216 * s[i + 3]) as u32
}

/// The signed 32-bit value stored little-endian at `s[i..i + 4]`.
pub open spec fn i32_at(s: Seq<u8>, i: int) -> i32 {
    u32_at(s, i) as i32
}

/// A variable-length field: a 4-byte count, then exactly that many bytes.
pub open spec fn sized(payload: Seq<u8>) -> Seq<u8> {
    u32_bytes(payload.len() as u32) + payload
}

/// An optional field: a flag byte (`0` present, `1` absent), then the payload
/// only when present.
pub open spec fn optional(field: Option<Seq<u8>>) -> Seq<u8> {
    match field {
        Some(p) => seq![0u8] + p,
        None => seq![1u8],
    }
}

pub proof fn lemma_u16_round_trip(x: u16)
    ensures
        u16_at(u16_bytes(x), 0) == x,
{
}

pub proof fn lemma_u32_round_trip(x: u32)
    ensures
        u32_at(u32_bytes(x), 0) == x,
{
    assert(x / 65536 == (x / 256) / 256);
    assert(x / 16777216 == (x / 65536) / 256);
}

pub proof fn lemma_i32_round_trip(x: i32)
    ensures
        i32_at(i32_bytes(x), 0) == x,
{
    let u = x as u32;
    lemma_u32_round_trip(u);
    assert(((x as u32) as i32) == x) by (bit_vector);
}

pub fn put_u8(out: &mut Vec<u8>, x: u8)
    ensures
        final(out)@ == old(out)@ + seq![x],
{
    out.push(x);
}

pub fn put_u16(out: &mut Vec<u8>, x: u16)
    ensures
        final(out)@ == old(out)@ + u16_bytes(x),
{
    out.push((x % 256) as u8);
    out.push((x / 256) as u8);
}

pub fn put_u32(out: &mut Vec<u8>, x: u32)
    ensures
        final(out)@ == old(out)@ + u32_bytes(x),
{
    out.push((x % 256) as u8);
    out.push(((x / 256) % 256) as u8);
    out.push(((x / 65536) % 256) as u8);
    out.push((x / 16777216) as u8);
}

pub fn put_i32(out: &mut Vec<u8>, x: i32)
    ensures
        final(out)@ == old(out)@ + i32_bytes(x),
{
    put_u32(out, x as u32);
}

pub fn put_bytes(out: &mut Vec<u8>, s: &[u8])
    ensures
        final(out)@ == old(out)@ + s@,
{
    let ghost start = out@;
    let mut i: usize = 0;
    while i < s.len()
        invariant
            i <= s@.len(),
            out@ == start + s@.subrange(0, i as int),
        decreases s@.len() - i,
    {
        out.push(s[i]);
        i += 1;
        assert(s@.subrange(0, i as int) == s@.subrange(0, i - 1) + seq![s@[i - 1]]);
    }
    assert(s@.subrange(0, s@.len() as int) == s@);
}

/// Appends a variable-length field: its count, then its bytes.
pub fn put_sized(out: &mut Vec<u8>, s: &[u8])
    requires
        s@.len() <= u32::MAX,
    ensures
        final(out)@ == old(out)@ + sized(s@),
{
    put_u32(out, s.len() as u32);
    put_bytes(out, s);
}

/// Reads one byte at `at`; `None` when the frame ends before it.
/// Relies on nom::number::streaming::le_u8: the first byte, or Incomplete when there is none.
#[verifier::external_body]
pub(crate) fn take_u8(data: &[u8], at: usize) -> (r: Option<u8>)
    requires
        at <= data@.len(),
    ensures
        at < data@.len() ==> r == Some(data@[at as int]),
        at == data@.len() ==> r is None,
{
    match streaming::le_u8::<&[u8], nom::error::Error<&[u8]>>(&data[at..]) {
        Ok((_, v)) => Some(v),
        Err(_) => None,
    }
}

/// Relies on nom::number::streaming::le_i8: the first byte as two's complement,
/// or Incomplete when there is none.
#[verifier::external_body]
pub(crate) fn take_i8(data: &[u8], at: usize) -> (r: Option<i8>)
    requires
        at <= data@.len(),
    ensures
        at < data@.len() ==> r == Some(data@[at as int] as i8),
        at == data@.len() ==> r is None,
{
    match streaming::le_i8::<&[u8], nom::error::Error<&[u8]>>(&data[at..]) {
        Ok((_, v)) => Some(v),
        Err(_) => None,
    }
}

/// Relies on nom::number::streaming::le_u16: the little-endian value of the
/// first two bytes, or Incomplete when fewer remain.
#[verifier::external_body]
pub(crate) fn take_u16(data: &[u8], at: usize) -> (r: Option<u16>)
    requires
        at <= data@.len(),
    ensures
        at + 2 <= data@.len() ==> r == Some(u16_at(data@, at as int)),
        at + 2 > data@.len() ==> r is None,
{
    match streaming::le_u16::<&[u8], nom::error::Error<&[u8]>>(&data[at..]) {
        Ok((_, v)) => Some(v),
        Err(_) => None,
    }
}

/// Relies on nom::number::streaming::le_u32: the little-endian value of the
/// first four bytes, or Incomplete when fewer remain.
#[verifier::external_body]
pub(crate) fn take_u32(data: &[u8], at: usize) -> (r: Option<u32>)
    requires
        at <= data@.len(),
    ensures
        at + 4 <= data@.len() ==> r == Some(u32_at(data@, at as int)),
        at + 4 > data@.len() ==> r is None,
{
    match streaming::le_u32::<&[u8], nom::error::Error<&[u8]>>(&data[at..]) {
        Ok((_, v)) => Some(v),
        Err(_) => None,
    }
}

/// Relies on nom::number::streaming::le_i32: the little-endian two's complement
/// value of the first four bytes, or Incomplete when fewer remain.
#[verifier::external_body]
pub(crate) fn take_i32(data: &[u8], at: usize) -> (r: Option<i32>)
    requires
        at <= data@.len(),
    ensures
        at + 4 <= data@.len() ==> r == Some(i32_at(data@, at as int)),
        at + 4 > data@.len() ==> r is None,
{
    match streaming::le_i32::<&[u8], nom::error::Error<&[u8]>>(&data[at..]) {
        Ok((_, v)) => Some(v),
        Err(_) => None,
    }
}

} // verus!
