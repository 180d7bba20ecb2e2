use zigbee::address::{IeeeAddress, ShortAddress};
use zigbee::codec::DecodeError;
use zigbee::nwk::frame::{
    CommandFrameIdentifier, DataTransmissionMethod, DiscoverRoute, FrameControl,
    FrameTypeIdentifier, MulticastControl, MulticastMode, NwkCommandFrame, NwkDataFrame, NwkFrame,
    NwkHeader, SourceRouteSubframe,
};

#[test]
fn multicast_control_multicast_mode() {
    let multicast_control = MulticastControl(0xff);
    let mode = multicast_control.multicast_mode();
    assert_eq!(mode, MulticastMode::Reserved);
}

#[test]
fn source_route_subframe_pack() {
    let got = SourceRouteSubframe::unpack_from_slice(&[0x04, 0x03, 0xff, 0xff, 0xff, 0xff]).unwrap();

    assert_eq!(got.relay_count, 0x04);
    assert_eq!(got.relay_index, 0x03);
    assert_eq!(got.relay_list, &[0xff, 0xff, 0xff, 0xff]);
}

#[test]
fn unpack_frame_control() {
    let raw = [0b0111_1100_u8, 0b0010_1010_u8];

    let frame_control = FrameControl::unpack_from_slice(&raw).unwrap();
    assert_eq!(frame_control.frame_type_identifier(), FrameTypeIdentifier::Data);
    assert_eq!(frame_control.protocol_version(), 0b1111u8);
    assert_eq!(frame_control.discover_route(), DiscoverRoute::Enable);
    assert!(!frame_control.multicast_flag());
    assert!(frame_control.security_flag());
    assert!(!frame_control.source_flag());
    assert!(frame_control.destination_ieee_flag());
    assert!(!frame_control.source_ieee_flag());
    assert!(frame_control.end_device_initiator());
}

#[test]
fn unpack_nwk_header() {
    let raw = [
        0x09, 0x12, 0xfc, 0xff, 0x00, 0x00, 0x08, 0xbf, 0x66, 0x71, 0x9a, 0x2a, 0x00, 0x4b, 0x12,
        0x00,
    ];

    let header = NwkHeader::unpack_from_slice(&raw).unwrap();

    assert!(header.frame_control.security_flag());
    assert!(header.frame_control.source_ieee_flag());
    assert_eq!(header.destination, ShortAddress(0xfffc));
    assert_eq!(header.source_ieee, Some(IeeeAddress(0x0012_4b00_2a9a_7166)));
    assert_eq!(header.radius, 8);
    assert_eq!(header.sequence_number, 191);
}

#[test]
fn nwk_header_fields_of_captured_frame() {
    let raw = [
        0x09, 0x12, 0xfc, 0xff, 0x00, 0x00, 0x08, 0xbf, 0x66, 0x71, 0x9a, 0x2a, 0x00, 0x4b, 0x12,
        0x00,
    ];
    let (header, next) = NwkHeader::unpack_at(&raw, 0).unwrap();
    assert_eq!(next, 16);
    assert_eq!(header.frame_control, FrameControl(0x1209));
    assert_eq!(header.source, ShortAddress(0x0000));
    assert_eq!(header.destination_ieee, None);
    assert!(header.multicast_control.is_none());
    assert!(header.source_route_subframe.is_none());
}

#[test]
fn clear_flags_leave_fields_absent_and_take_no_bytes() {
    // Frame control with no optional-field flag set, followed by spare bytes.
    let raw = [0x00, 0x00, 0x34, 0x12, 0x78, 0x56, 0x1e, 0x07, 0xaa, 0xbb];
    let (header, next) = NwkHeader::unpack_at(&raw, 0).unwrap();
    assert_eq!(next, 8);
    assert_eq!(header.destination, ShortAddress(0x1234));
    assert_eq!(header.source, ShortAddress(0x5678));
    assert_eq!(header.radius, 0x1e);
    assert_eq!(header.sequence_number, 0x07);
    assert!(header.destination_ieee.is_none());
    assert!(header.source_ieee.is_none());
    assert!(header.multicast_control.is_none());
    assert!(header.source_route_subframe.is_none());
}

#[test]
fn flagged_fields_are_read_in_order() {
    // Destination IEEE, source IEEE and multicast flags set.
    let fc: u16 = (1 << 8) | (1 << 11) | (1 << 12);
    let mut raw = vec![fc as u8, (fc >> 8) as u8, 1, 0, 2, 0, 3, 4];
    raw.extend_from_slice(&0x1122_3344_5566_7788u64.to_le_bytes());
    raw.extend_from_slice(&0x99aa_bbcc_ddee_ff00u64.to_le_bytes());
    raw.push(0b0110_1010);
    let (header, next) = NwkHeader::unpack_at(&raw, 0).unwrap();
    assert_eq!(next, raw.len());
    assert_eq!(header.destination_ieee, Some(IeeeAddress(0x1122_3344_5566_7788)));
    assert_eq!(header.source_ieee, Some(IeeeAddress(0x99aa_bbcc_ddee_ff00)));
    let mc = header.multicast_control.unwrap();
    assert_eq!(mc.multicast_mode(), MulticastMode::MemberMode);
    assert_eq!(mc.non_member_radius(), 0b101);
    assert_eq!(mc.max_member_radius(), 0b10);
}

#[test]
fn flagged_field_missing_is_insufficient() {
    // Destination IEEE flag set but only four of its eight bytes present.
    let fc: u16 = 1 << 11;
    let raw = [fc as u8, (fc >> 8) as u8, 1, 0, 2, 0, 3, 4, 9, 9, 9, 9];
    assert_eq!(NwkHeader::unpack_from_slice(&raw).unwrap_err(), DecodeError::InsufficientBytes);
}

#[test]
fn empty_input_is_insufficient_for_fixed_fields() {
    assert_eq!(FrameControl::unpack_from_slice(&[]).unwrap_err(), DecodeError::InsufficientBytes);
    assert_eq!(NwkHeader::unpack_from_slice(&[]).unwrap_err(), DecodeError::InsufficientBytes);
    assert_eq!(NwkFrame::unpack_from_slice(&[]).unwrap_err(), DecodeError::InsufficientBytes);
    assert_eq!(
        SourceRouteSubframe::unpack_from_slice(&[]).unwrap_err(),
        DecodeError::InsufficientBytes
    );
    assert_eq!(ShortAddress::unpack_at(&[], 0).unwrap_err(), DecodeError::InsufficientBytes);
    assert_eq!(IeeeAddress::unpack_at(&[], 0).unwrap_err(), DecodeError::InsufficientBytes);
    assert_eq!(
        CommandFrameIdentifier::unpack_at(&[], 0).unwrap_err(),
        DecodeError::InsufficientBytes
    );
    assert_eq!(FrameControl::unpack_from_slice(&[0x01]).unwrap_err(), DecodeError::InsufficientBytes);
}

#[test]
fn oversized_payload_is_capacity_exceeded() {
    let mut raw = vec![0x00, 0x00, 1, 0, 2, 0, 3, 4];
    raw.extend(std::iter::repeat(0x5a).take(129));
    assert_eq!(NwkFrame::unpack_from_slice(&raw).unwrap_err(), DecodeError::CapacityExceeded);

    raw.pop();
    match NwkFrame::unpack_from_slice(&raw).unwrap() {
        NwkFrame::Data(d) => assert_eq!(d.payload.len(), 128),
        other => panic!("unexpected frame {:?}", other),
    }
}

#[test]
fn oversized_relay_list_is_capacity_exceeded() {
    let mut raw = vec![2, 0];
    raw.extend(std::iter::repeat(0x11).take(17));
    assert_eq!(
        SourceRouteSubframe::unpack_from_slice(&raw).unwrap_err(),
        DecodeError::CapacityExceeded
    );
    raw.pop();
    assert_eq!(SourceRouteSubframe::unpack_from_slice(&raw).unwrap().relay_list.len(), 16);
}

#[test]
fn command_frame_decodes_identifier_and_payload() {
    let fc: u16 = 0b01;
    let raw = [fc as u8, (fc >> 8) as u8, 1, 0, 2, 0, 3, 4, 0x07, 0xde, 0xad];
    let frame = NwkFrame::unpack_from_slice(&raw).unwrap();
    assert_eq!(frame.frame_type_identifier(), FrameTypeIdentifier::NwkCommand);
    match frame {
        NwkFrame::NwkCommand(c) => {
            assert_eq!(c.command_identifier, CommandFrameIdentifier::RejoinResponse);
            assert_eq!(c.payload, &[0xde, 0xad]);
        }
        other => panic!("unexpected frame {:?}", other),
    }
}

#[test]
fn command_frame_without_identifier_is_insufficient() {
    let raw = [0x01, 0x00, 1, 0, 2, 0, 3, 4];
    assert_eq!(NwkFrame::unpack_from_slice(&raw).unwrap_err(), DecodeError::InsufficientBytes);
}

#[test]
fn unknown_command_identifiers_are_reserved() {
    assert_eq!(CommandFrameIdentifier::from_u8(0x00), CommandFrameIdentifier::Reserved);
    assert_eq!(CommandFrameIdentifier::from_u8(0x0e), CommandFrameIdentifier::Reserved);
    assert_eq!(CommandFrameIdentifier::from_u8(0xff), CommandFrameIdentifier::Reserved);
    assert_eq!(CommandFrameIdentifier::from_u8(0x01), CommandFrameIdentifier::RouteRequest);
    assert_eq!(CommandFrameIdentifier::from_u8(0x0d), CommandFrameIdentifier::LinkPowerDelta);
    assert_eq!(CommandFrameIdentifier::Reserved.to_u8(), 0x0e);
    assert_eq!(CommandFrameIdentifier::NetworkUpdate.to_u8(), 0x0a);
}

#[test]
fn reserved_and_inter_pan_frames_keep_only_the_header() {
    let raw = [0b10, 0x00, 1, 0, 2, 0, 3, 4, 0xee];
    assert!(matches!(NwkFrame::unpack_from_slice(&raw).unwrap(), NwkFrame::Reserved(_)));
    let raw = [0b11, 0x00, 1, 0, 2, 0, 3, 4];
    let frame = NwkFrame::unpack_from_slice(&raw).unwrap();
    assert_eq!(frame.frame_type_identifier(), FrameTypeIdentifier::InterPan);
    assert_eq!(frame.pack(), raw.to_vec());
}

#[test]
fn discover_route_codes() {
    assert_eq!(DiscoverRoute::from_u8(0), DiscoverRoute::Suppress);
    assert_eq!(DiscoverRoute::from_u8(1), DiscoverRoute::Enable);
    assert_eq!(DiscoverRoute::from_u8(2), DiscoverRoute::Reserved);
    assert_eq!(DiscoverRoute::from_u8(3), DiscoverRoute::Reserved);
}

#[test]
fn transmission_method_table() {
    let fc = |route: u16, multicast: bool, dst_ieee: bool| {
        FrameControl((route << 6) | ((multicast as u16) << 8) | ((dst_ieee as u16) << 11))
    };
    assert_eq!(fc(0, false, false).transmission_method(), DataTransmissionMethod::Broadcast);
    assert_eq!(fc(0, true, false).transmission_method(), DataTransmissionMethod::Multicast);
    assert_eq!(fc(0, false, true).transmission_method(), DataTransmissionMethod::Unicast);
    assert_eq!(fc(1, false, false).transmission_method(), DataTransmissionMethod::Unicast);
    assert_eq!(fc(1, false, true).transmission_method(), DataTransmissionMethod::Unicast);
    assert_eq!(fc(1, true, false).transmission_method(), DataTransmissionMethod::Reserved);
    assert_eq!(fc(0, true, true).transmission_method(), DataTransmissionMethod::Reserved);
    assert_eq!(fc(2, false, false).transmission_method(), DataTransmissionMethod::Reserved);
}

fn header(fc: u16, source_route: Option<SourceRouteSubframe>) -> NwkHeader {
    let frame_control = FrameControl(fc);
    NwkHeader {
        frame_control,
        destination: ShortAddress(0xfffc),
        source: ShortAddress(0x0001),
        radius: 8,
        sequence_number: 191,
        destination_ieee: if frame_control.destination_ieee_flag() {
            Some(IeeeAddress(0x0102_0304_0506_0708))
        } else {
            None
        },
        source_ieee: if frame_control.source_ieee_flag() {
            Some(IeeeAddress(0x0012_4b00_2a9a_7166))
        } else {
            None
        },
        multicast_control: if frame_control.multicast_flag() {
            Some(MulticastControl(0x5b))
        } else {
            None
        },
        source_route_subframe: source_route,
    }
}

#[test]
fn data_frame_round_trip_for_every_flag_combination() {
    for flags in 0u16..16 {
        let multicast = flags & 1 != 0;
        let source_route = flags & 2 != 0;
        let dst_ieee = flags & 4 != 0;
        let src_ieee = flags & 8 != 0;
        let fc = ((multicast as u16) << 8)
            | ((source_route as u16) << 10)
            | ((dst_ieee as u16) << 11)
            | ((src_ieee as u16) << 12)
            | (1 << 9);
        let subframe = if source_route {
            Some(SourceRouteSubframe {
                relay_count: 2,
                relay_index: 1,
                relay_list: heapless::Vec::from_slice(&[0x34, 0x12, 0x78, 0x56]).unwrap(),
            })
        } else {
            None
        };
        let payload: &[u8] = if source_route { &[] } else { &[1, 2, 3] };
        let frame = NwkFrame::Data(NwkDataFrame {
            header: header(fc, subframe),
            payload: heapless::Vec::from_slice(payload).unwrap(),
        });
        let bytes = frame.pack();
        let decoded = NwkFrame::unpack_from_slice(&bytes).unwrap();
        assert_eq!(decoded.pack(), bytes);
        match decoded {
            NwkFrame::Data(d) => {
                assert_eq!(d.payload, payload);
                assert_eq!(d.header.frame_control, FrameControl(fc));
                assert_eq!(d.header.destination_ieee.is_some(), dst_ieee);
                assert_eq!(d.header.source_ieee.is_some(), src_ieee);
                assert_eq!(d.header.multicast_control, header(fc, None).multicast_control);
                assert_eq!(d.header.source_route_subframe.is_some(), source_route);
            }
            other => panic!("unexpected frame {:?}", other),
        }
    }
}

#[test]
fn command_frame_round_trip() {
    let fc: u16 = 0b01 | (1 << 11);
    let frame = NwkFrame::NwkCommand(NwkCommandFrame {
        header: header(fc, None),
        command_identifier: CommandFrameIdentifier::LinkStatus,
        payload: heapless::Vec::from_slice(&[9, 8, 7]).unwrap(),
    });
    let bytes = frame.pack();
    assert_eq!(bytes.len(), 8 + 8 + 1 + 3);
    assert_eq!(&bytes[..2], &[0x01, 0x08]);
    assert_eq!(bytes[16], 0x08);
    match NwkFrame::unpack_from_slice(&bytes).unwrap() {
        NwkFrame::NwkCommand(c) => {
            assert_eq!(c.command_identifier, CommandFrameIdentifier::LinkStatus);
            assert_eq!(c.payload, &[9, 8, 7]);
            assert_eq!(c.header.destination_ieee, Some(IeeeAddress(0x0102_0304_0506_0708)));
        }
        other => panic!("unexpected frame {:?}", other),
    }
}

#[test]
fn header_bytes_are_little_endian() {
    let h = header(1 << 12, None);
    let mut out = Vec::new();
    h.pack_into(&mut out);
    assert_eq!(
        out,
        vec![0x00, 0x10, 0xfc, 0xff, 0x01, 0x00, 0x08, 0xbf, 0x66, 0x71, 0x9a, 0x2a, 0x00, 0x4b, 0x12, 0x00]
    );
}
