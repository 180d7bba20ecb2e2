use zigbee::address::IeeeAddress;
use zigbee::codec::DecodeError;
use zigbee::security::frame::{AuxFrameHeader, KeyIdentifier, SecurityControl, SecurityLevel};

#[test]
fn security_control_fields() {
    let sc = SecurityControl(0b0010_1101);
    assert_eq!(sc.security_level(), SecurityLevel::EncMic32);
    assert_eq!(sc.key_identifier(), KeyIdentifier::Network);
    assert!(sc.is_network_key());
    assert!(sc.extended_nonce());
    let sc = SecurityControl(0b1101_0000);
    assert_eq!(sc.security_level(), SecurityLevel::NoSecurity);
    assert_eq!(sc.key_identifier(), KeyIdentifier::KeyTransport);
    assert!(!sc.is_network_key());
    assert!(!sc.extended_nonce());
}

#[test]
fn aux_header_with_both_optional_fields() {
    let raw = [0b0010_1101, 0x78, 0x56, 0x34, 0x12, 1, 2, 3, 4, 5, 6, 7, 8, 0x2a, 0xff];
    let (header, next) = AuxFrameHeader::unpack_at(&raw, 0).unwrap();
    assert_eq!(next, 14);
    assert_eq!(header.frame_counter, 0x1234_5678);
    assert_eq!(header.source_address, Some(IeeeAddress(0x0807_0605_0403_0201)));
    assert_eq!(header.key_sequence_number, Some(0x2a));
    let mut out = Vec::new();
    header.pack_into(&mut out);
    assert_eq!(out, raw[..14].to_vec());
}

#[test]
fn aux_header_without_optional_fields() {
    let raw = [0b0000_0101, 1, 0, 0, 0, 0xee];
    let header = AuxFrameHeader::unpack_from_slice(&raw).unwrap();
    assert_eq!(header.frame_counter, 1);
    assert_eq!(header.source_address, None);
    assert_eq!(header.key_sequence_number, None);
}

#[test]
fn aux_header_truncated() {
    assert_eq!(AuxFrameHeader::unpack_from_slice(&[]).unwrap_err(), DecodeError::InsufficientBytes);
    let raw = [0b0010_0000, 1, 0, 0, 0, 1, 2];
    assert_eq!(AuxFrameHeader::unpack_from_slice(&raw).unwrap_err(), DecodeError::InsufficientBytes);
}
