use zigbee::codec::{
    pack_u16, pack_u32, pack_u64, unpack_i16, unpack_i32, unpack_i64, unpack_i8, unpack_u16,
    unpack_u32, unpack_u64, unpack_u8, DecodeError,
};

#[test]
fn integers_are_little_endian() {
    let raw = [0x01, 0x02, 0x03, 0x04, 0x05, 0x06, 0x07, 0x08, 0x09];
    assert_eq!(unpack_u8(&raw, 0).unwrap(), (0x01, 1));
    assert_eq!(unpack_u16(&raw, 1).unwrap(), (0x0302, 3));
    assert_eq!(unpack_u32(&raw, 0).unwrap(), (0x0403_0201, 4));
    assert_eq!(unpack_u64(&raw, 1).unwrap(), (0x0908_0706_0504_0302, 9));
}

#[test]
fn integers_past_the_end_are_insufficient() {
    let raw = [0x01, 0x02, 0x03];
    assert_eq!(unpack_u8(&raw, 3).unwrap_err(), DecodeError::InsufficientBytes);
    assert_eq!(unpack_u16(&raw, 2).unwrap_err(), DecodeError::InsufficientBytes);
    assert_eq!(unpack_u32(&raw, 0).unwrap_err(), DecodeError::InsufficientBytes);
    assert_eq!(unpack_u64(&[], 0).unwrap_err(), DecodeError::InsufficientBytes);
}

#[test]
fn integers_round_trip() {
    let mut out = Vec::new();
    pack_u16(0xbeef, &mut out);
    pack_u32(0xdead_beef, &mut out);
    pack_u64(0x0123_4567_89ab_cdef, &mut out);
    assert_eq!(out[..2], [0xef, 0xbe]);
    let (a, p) = unpack_u16(&out, 0).unwrap();
    let (b, p) = unpack_u32(&out, p).unwrap();
    let (c, p) = unpack_u64(&out, p).unwrap();
    assert_eq!((a, b, c, p), (0xbeef, 0xdead_beef, 0x0123_4567_89ab_cdef, 14));
}

#[test]
fn signed_integers_use_twos_complement() {
    let raw = [0xff, 0xfe, 0xff, 0xff, 0xff, 0xff, 0xff, 0xff, 0xff];
    assert_eq!(unpack_i8(&raw, 0).unwrap(), (-1, 1));
    assert_eq!(unpack_i16(&raw, 1).unwrap(), (-2, 3));
    assert_eq!(unpack_i32(&raw, 0).unwrap(), (-257, 4));
    assert_eq!(unpack_i64(&raw, 1).unwrap(), (-2, 9));
    assert_eq!(unpack_i16(&raw, 8).unwrap_err(), DecodeError::InsufficientBytes);
}
