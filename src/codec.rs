//! The byte-sequence codec.
//!
//! Every value is decoded from a byte slice starting at a position: a decoder
//! either returns the value together with the position just past its bytes, or
//! a [`DecodeError`]. Each decoder is specified by a parse function on the
//! remaining bytes, which gives the value's model and the number of bytes it
//! consumes. Encoders append the canonical bytes of a value to a vector.
//! Multi-byte integers are little-endian on the wire.
use vstd::prelude::*;

verus! {

/// Why a byte sequence could not be decoded.
#[derive(Debug, Clone, Copy, PartialEq, Eq, Structural)]
pub enum DecodeError {
    /// The input ended before a mandatory or flagged field was complete.
    InsufficientBytes,
    /// A bounded buffer would have to hold more bytes than its capacity.
    CapacityExceeded,
}

/// What a parse function gives: the decoded model and how many bytes it took.
pub type Parsed<V> = Result<(V, nat), DecodeError>;

/// `r`, the result of a decoder called at `pos`, agrees with `expected`, the
/// parse of the bytes from `pos` on.
pub open spec fn decoded<T: View>(
    r: Result<(T, usize), DecodeError>,
    pos: usize,
    expected: Parsed<T::V>,
) -> bool {
    match expected {
        Ok((v, n)) => r is Ok && r->Ok_0.0@ == v && r->Ok_0.1 == pos + n,
        Err(e) => r is Err && r->Err_0 == e,
    }
}

/// `r`, the result of decoding a whole slice, agrees with `expected`.
pub open spec fn decoded_value<T: View>(r: Result<T, DecodeError>, expected: Parsed<T::V>) -> bool {
    match expected {
        Ok((v, _)) => r is Ok && r->Ok_0@ == v,
        Err(e) => r is Err && r->Err_0 == e,
    }
}

/// The little-endian value of the first two bytes of `s`.
pub open spec fn u16_from_le(s: Seq<u8>) -> u16 {
    (s[0] as u16) | ((s[1] as u16) << 8u16)
}

/// The little-endian value of the first four bytes of `s`.
pub open spec fn u32_from_le(s: Seq<u8>) -> u32 {
    (s[0] as u32) | ((s[1] as u32) << 8u32) | ((s[2] as u32) << 16u32) | ((s[3] as u32)
        << 24u32)
}

/// The little-endian value of the first eight bytes of `s`.
pub open spec fn u64_from_le(s: Seq<u8>) -> u64 {
    (s[0] as u64) | ((s[1] as u64) << 8u64) | ((s[2] as u64) << 16u64) | ((s[3] as u64)
        << 24u64) | ((s[4] as u64) << 32u64) | ((s[5] as u64) << 40u64) | ((s[6] as u64)
        << 48u64) | ((s[7] as u64) << 56u64)
}

/// The two little-endian bytes of `v`.
pub open spec fn u16_le_bytes(v: u16) -> Seq<u8> {
    seq![v as u8, (v >> 8u16) as u8]
}

/// The four little-endian bytes of `v`.
pub open spec fn u32_le_bytes(v: u32) -> Seq<u8> {
    seq![v as u8, (v >> 8u32) as u8, (v >> 16u32) as u8, (v >> 24u32) as u8]
}

/// The eight little-endian bytes of `v`.
pub open spec fn u64_le_bytes(v: u64) -> Seq<u8> {
    seq![
        v as u8,
        (v >> 8u64) as u8,
        (v >> 16u64) as u8,
        (v >> 24u64) as u8,
        (v >> 32u64) as u8,
        (v >> 40u64) as u8,
        (v >> 48u64) as u8,
        (v >> 56u64) as u8,
    ]
}

/// A byte: the first byte of `s`.
pub open spec fn parse_u8(s: Seq<u8>) -> Parsed<u8> {
    if s.len() < 1 {
        Err(DecodeError::InsufficientBytes)
    } else {
        Ok((s[0], 1))
    }
}

/// A little-endian `u16`: the first two bytes of `s`.
pub open spec fn parse_u16(s: Seq<u8>) -> Parsed<u16> {
    if s.len() < 2 {
        Err(DecodeError::InsufficientBytes)
    } else {
        Ok((u16_from_le(s), 2))
    }
}

/// A little-endian `u32`: the first four bytes of `s`.
pub open spec fn parse_u32(s: Seq<u8>) -> Parsed<u32> {
    if s.len() < 4 {
        Err(DecodeError::InsufficientBytes)
    } else {
        Ok((u32_from_le(s), 4))
    }
}

/// A little-endian `u64`: the first eight bytes of `s`.
pub open spec fn parse_u64(s: Seq<u8>) -> Parsed<u64> {
    if s.len() < 8 {
        Err(DecodeError::InsufficientBytes)
    } else {
        Ok((u64_from_le(s), 8))
    }
}

proof fn lemma_u16_bytes_bits(v: u16)
    by (bit_vector)
    ensures
        (((v as u8) as u16) | ((((v >> 8u16) as u8) as u16) << 8u16)) == v,
{
}

proof fn lemma_u32_bytes_bits(v: u32)
    by (bit_vector)
    ensures
        (((v as u8) as u32) | ((((v >> 8u32) as u8) as u32) << 8u32) | ((((v >> 16u32) as u8)
            as u32) << 16u32) | ((((v >> 24u32) as u8) as u32) << 24u32)) == v,
{
}

proof fn lemma_u64_bytes_bits(v: u64)
    by (bit_vector)
    ensures
        (((v as u8) as u64) | ((((v >> 8u64) as u8) as u64) << 8u64) | ((((v >> 16u64) as u8)
            as u64) << 16u64) | ((((v >> 24u64) as u8) as u64) << 24u64) | ((((v >> 32u64)
            as u8) as u64) << 32u64) | ((((v >> 40u64) as u8) as u64) << 40u64) | ((((v
            >> 48u64) as u8) as u64) << 48u64) | ((((v >> 56u64) as u8) as u64) << 56u64)) == v,
{
}

/// A byte followed by anything parses back to itself.
pub proof fn lemma_u8_round_trip(v: u8, rest: Seq<u8>)
    ensures
        parse_u8(seq![v] + rest) == Ok::<(u8, nat), DecodeError>((v, 1)),
{
    assert((seq![v] + rest)[0] == v);
}

/// The bytes of a `u16`, followed by anything, parse back to it.
pub proof fn lemma_u16_round_trip(v: u16, rest: Seq<u8>)
    ensures
        parse_u16(u16_le_bytes(v) + rest) == Ok::<(u16, nat), DecodeError>((v, 2)),
{
    let s = u16_le_bytes(v) + rest;
    assert(s[0] == v as u8 && s[1] == (v >> 8u16) as u8);
    lemma_u16_bytes_bits(v);
}

/// The bytes of a `u32`, followed by anything, parse back to it.
pub proof fn lemma_u32_round_trip(v: u32, rest: Seq<u8>)
    ensures
        parse_u32(u32_le_bytes(v) + rest) == Ok::<(u32, nat), DecodeError>((v, 4)),
{
    let s = u32_le_bytes(v) + rest;
    assert(s[0] == v as u8 && s[1] == (v >> 8u32) as u8 && s[2] == (v >> 16u32) as u8 && s[3]
        == (v >> 24u32) as u8);
    lemma_u32_bytes_bits(v);
}

/// The bytes of a `u64`, followed by anything, parse back to it.
pub proof fn lemma_u64_round_trip(v: u64, rest: Seq<u8>)
    ensures
        parse_u64(u64_le_bytes(v) + rest) == Ok::<(u64, nat), DecodeError>((v, 8)),
{
    let s = u64_le_bytes(v) + rest;
    assert(s[0] == v as u8 && s[1] == (v >> 8u64) as u8 && s[2] == (v >> 16u64) as u8 && s[3]
        == (v >> 24u64) as u8 && s[4] == (v >> 32u64) as u8 && s[5] == (v >> 40u64) as u8
        && s[6] == (v >> 48u64) as u8 && s[7] == (v >> 56u64) as u8);
    lemma_u64_bytes_bits(v);
}

proof fn lemma_u16_le_bits(b0: u8, b1: u8)
    by (bit_vector)
    ensures
        (((b0 as u16) | ((b1 as u16) << 8u16)) as u8) == b0,
        ((((b0 as u16) | ((b1 as u16) << 8u16)) >> 8u16) as u8) == b1,
{
}

proof fn lemma_u32_le_bits(b0: u8, b1: u8, b2: u8, b3: u8)
    by (bit_vector)
    ensures
        ({
            let v = (b0 as u32) | ((b1 as u32) << 8u32) | ((b2 as u32) << 16u32) | ((b3 as u32)
                << 24u32);
            &&& v as u8 == b0
            &&& (v >> 8u32) as u8 == b1
            &&& (v >> 16u32) as u8 == b2
            &&& (v >> 24u32) as u8 == b3
        }),
{
}

proof fn lemma_u64_le_bits(b0: u8, b1: u8, b2: u8, b3: u8, b4: u8, b5: u8, b6: u8, b7: u8)
    by (bit_vector)
    ensures
        ({
            let v = (b0 as u64) | ((b1 as u64) << 8u64) | ((b2 as u64) << 16u64) | ((b3 as u64)
                << 24u64) | ((b4 as u64) << 32u64) | ((b5 as u64) << 40u64) | ((b6 as u64)
                << 48u64) | ((b7 as u64) << 56u64);
            &&& v as u8 == b0
            &&& (v >> 8u64) as u8 == b1
            &&& (v >> 16u64) as u8 == b2
            &&& (v >> 24u64) as u8 == b3
            &&& (v >> 32u64) as u8 == b4
            &&& (v >> 40u64) as u8 == b5
            &&& (v >> 48u64) as u8 == b6
            &&& (v >> 56u64) as u8 == b7
        }),
{
}

/// Encoding the `u16` read from the first two bytes gives those bytes.
pub proof fn lemma_u16_canonical(s: Seq<u8>)
    requires
        s.len() >= 2,
    ensures
        u16_le_bytes(u16_from_le(s)) == s.take(2),
{
    lemma_u16_le_bits(s[0], s[1]);
    assert(u16_le_bytes(u16_from_le(s)) =~= s.take(2));
}

/// Encoding the `u32` read from the first four bytes gives those bytes.
pub proof fn lemma_u32_canonical(s: Seq<u8>)
    requires
        s.len() >= 4,
    ensures
        u32_le_bytes(u32_from_le(s)) == s.take(4),
{
    lemma_u32_le_bits(s[0], s[1], s[2], s[3]);
    assert(u32_le_bytes(u32_from_le(s)) =~= s.take(4));
}

/// Encoding the `u64` read from the first eight bytes gives those bytes.
pub proof fn lemma_u64_canonical(s: Seq<u8>)
    requires
        s.len() >= 8,
    ensures
        u64_le_bytes(u64_from_le(s)) == s.take(8),
{
    lemma_u64_le_bits(s[0], s[1], s[2], s[3], s[4], s[5], s[6], s[7]);
    assert(u64_le_bytes(u64_from_le(s)) =~= s.take(8));
}

/// Reads one byte at `pos`.
pub fn unpack_u8(src: &[u8], pos: usize) -> (r: Result<(u8, usize), DecodeError>)
    requires
        pos <= src@.len(),
    ensures
        decoded(r, pos, parse_u8(src@.skip(pos as int))),
{
    if pos < src.len() {
        Ok((src[pos], pos + 1))
    } else {
        Err(DecodeError::InsufficientBytes)
    }
}

/// Reads a little-endian `u16` at `pos`.
pub fn unpack_u16(src: &[u8], pos: usize) -> (r: Result<(u16, usize), DecodeError>)
    requires
        pos <= src@.len(),
    ensures
        decoded(r, pos, parse_u16(src@.skip(pos as int))),
{
    if src.len() - pos < 2 {
        return Err(DecodeError::InsufficientBytes);
    }
    let v = (src[pos] as u16) | ((src[pos + 1] as u16) << 8u16);
    Ok((v, pos + 2))
}

/// Reads a little-endian `u32` at `pos`.
pub fn unpack_u32(src: &[u8], pos: usize) -> (r: Result<(u32, usize), DecodeError>)
    requires
        pos <= src@.len(),
    ensures
        decoded(r, pos, parse_u32(src@.skip(pos as int))),
{
    if src.len() - pos < 4 {
        return Err(DecodeError::InsufficientBytes);
    }
    let v = (src[pos] as u32) | ((src[pos + 1] as u32) << 8u32) | ((src[pos + 2] as u32)
        << 16u32) | ((src[pos + 3] as u32) << 24u32);
    Ok((v, pos + 4))
}

/// Reads a little-endian `u64` at `pos`.
pub fn unpack_u64(src: &[u8], pos: usize) -> (r: Result<(u64, usize), DecodeError>)
    requires
        pos <= src@.len(),
    ensures
        decoded(r, pos, parse_u64(src@.skip(pos as int))),
{
    if src.len() - pos < 8 {
        return Err(DecodeError::InsufficientBytes);
    }
    let v = (src[pos] as u64) | ((src[pos + 1] as u64) << 8u64) | ((src[pos + 2] as u64)
        << 16u64) | ((src[pos + 3] as u64) << 24u64) | ((src[pos + 4] as u64) << 32u64) | ((
    src[pos + 5] as u64) << 40u64) | ((src[pos + 6] as u64) << 48u64) | ((src[pos + 7] as u64)
        << 56u64);
    Ok((v, pos + 8))
}

/// A signed integer read from the two's-complement bits of the unsigned
/// parse.
pub open spec fn parse_i8(s: Seq<u8>) -> Parsed<i8> {
    match parse_u8(s) {
        Ok((v, n)) => Ok((v as i8, n)),
        Err(e) => Err(e),
    }
}

/// A little-endian `i16`.
pub open spec fn parse_i16(s: Seq<u8>) -> Parsed<i16> {
    match parse_u16(s) {
        Ok((v, n)) => Ok((v as i16, n)),
        Err(e) => Err(e),
    }
}

/// A little-endian `i32`.
pub open spec fn parse_i32(s: Seq<u8>) -> Parsed<i32> {
    match parse_u32(s) {
        Ok((v, n)) => Ok((v as i32, n)),
        Err(e) => Err(e),
    }
}

/// A little-endian `i64`.
pub open spec fn parse_i64(s: Seq<u8>) -> Parsed<i64> {
    match parse_u64(s) {
        Ok((v, n)) => Ok((v as i64, n)),
        Err(e) => Err(e),
    }
}

/// Reads one byte at `pos` as an `i8`.
pub fn unpack_i8(src: &[u8], pos: usize) -> (r: Result<(i8, usize), DecodeError>)
    requires
        pos <= src@.len(),
    ensures
        decoded(r, pos, parse_i8(src@.skip(pos as int))),
{
    let (v, next) = unpack_u8(src, pos)?;
    Ok((v as i8, next))
}

/// Reads a little-endian `i16` at `pos`.
pub fn unpack_i16(src: &[u8], pos: usize) -> (r: Result<(i16, usize), DecodeError>)
    requires
        pos <= src@.len(),
    ensures
        decoded(r, pos, parse_i16(src@.skip(pos as int))),
{
    let (v, next) = unpack_u16(src, pos)?;
    Ok((v as i16, next))
}

/// Reads a little-endian `i32` at `pos`.
pub fn unpack_i32(src: &[u8], pos: usize) -> (r: Result<(i32, usize), DecodeError>)
    requires
        pos <= src@.len(),
    ensures
        decoded(r, pos, parse_i32(src@.skip(pos as int))),
{
    let (v, next) = unpack_u32(src, pos)?;
    Ok((v as i32, next))
}

/// Reads a little-endian `i64` at `pos`.
pub fn unpack_i64(src: &[u8], pos: usize) -> (r: Result<(i64, usize), DecodeError>)
    requires
        pos <= src@.len(),
    ensures
        decoded(r, pos, parse_i64(src@.skip(pos as int))),
{
    let (v, next) = unpack_u64(src, pos)?;
    Ok((v as i64, next))
}

/// Appends one byte.
pub fn pack_u8(v: u8, out: &mut Vec<u8>)
    ensures
        final(out)@ == old(out)@ + seq![v],
{
    out.push(v);
}

/// Appends the two little-endian bytes of `v`.
pub fn pack_u16(v: u16, out: &mut Vec<u8>)
    ensures
        final(out)@ == old(out)@ + u16_le_bytes(v),
{
    out.push(v as u8);
    out.push((v >> 8u16) as u8);
    assert(out@ =~= old(out)@ + u16_le_bytes(v));
}

/// Appends the four little-endian bytes of `v`.
pub fn pack_u32(v: u32, out: &mut Vec<u8>)
    ensures
        final(out)@ == old(out)@ + u32_le_bytes(v),
{
    out.push(v as u8);
    out.push((v >> 8u32) as u8);
    out.push((v >> 16u32) as u8);
    out.push((v >> 24u32) as u8);
    assert(out@ =~= old(out)@ + u32_le_bytes(v));
}

/// Appends the eight little-endian bytes of `v`.
pub fn pack_u64(v: u64, out: &mut Vec<u8>)
    ensures
        final(out)@ == old(out)@ + u64_le_bytes(v),
{
    out.push(v as u8);
    out.push((v >> 8u64) as u8);
    out.push((v >> 16u64) as u8);
    out.push((v >> 24u64) as u8);
    out.push((v >> 32u64) as u8);
    out.push((v >> 40u64) as u8);
    out.push((v >> 48u64) as u8);
    out.push((v >> 56u64) as u8);
    assert(out@ =~= old(out)@ + u64_le_bytes(v));
}

/// Length on the wire of an extended address that is present when `flag` is.
pub open spec fn ieee_field_len(flag: bool) -> nat {
    if flag {
        8
    } else {
        0
    }
}

/// Length on the wire of a one-byte field that is present when `flag` is.
pub open spec fn byte_field_len(flag: bool) -> nat {
    if flag {
        1
    } else {
        0
    }
}

/// Decoding an empty byte sequence as an integer fails with
/// `InsufficientBytes`.
pub proof fn lemma_empty_input_insufficient()
    ensures
        parse_u8(Seq::empty()) == Err::<(u8, nat), DecodeError>(DecodeError::InsufficientBytes),
        parse_u16(Seq::empty()) == Err::<(u16, nat), DecodeError>(DecodeError::InsufficientBytes),
        parse_u32(Seq::empty()) == Err::<(u32, nat), DecodeError>(DecodeError::InsufficientBytes),
        parse_u64(Seq::empty()) == Err::<(u64, nat), DecodeError>(DecodeError::InsufficientBytes),
{
}

} // verus!
