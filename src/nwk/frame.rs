//! NWK frame formats: the frame control word, the header with its
//! flag-gated optional fields, and the frame bodies selected by the frame
//! type.
use vstd::prelude::*;

use crate::address::{encode_ieee_address, encode_short_address, IeeeAddress, ShortAddress};
use crate::buffers::{
    payload_as_slice, payload_bytes, payload_from_slice, relay_bytes, relay_list_as_slice,
    relay_list_from_slice, PAYLOAD_SIZE, RELAY_LIST_SIZE,
};
use crate::codec::{
    byte_field_len, decoded, decoded_value, ieee_field_len, lemma_u16_canonical,
    lemma_u16_round_trip, lemma_u64_canonical, lemma_u64_round_trip,
    pack_u16, pack_u8, parse_u16, parse_u8, u16_from_le, u16_le_bytes, u64_from_le, unpack_u16,
    unpack_u8, DecodeError, Parsed,
};

verus! {

/// NWK protocol version implemented by this stack.
pub const PROTOCOL_VERSION: u8 = 0x02;

/// 3.3.1.1 Frame Control Field.
#[derive(Debug, Clone, Copy, PartialEq, Eq, Structural)]
pub struct FrameControl(pub u16);

/// 3.3.1.1.1 Frame Type Sub-Field.
#[derive(Debug, Clone, Copy, PartialEq, Eq, Structural)]
pub enum FrameTypeIdentifier {
    Data,
    NwkCommand,
    Reserved,
    InterPan,
}

/// 3.3.1.1.3 Discover Route Sub-Field.
#[derive(Debug, Clone, Copy, PartialEq, Eq, Structural)]
pub enum DiscoverRoute {
    Suppress,
    Enable,
    Reserved,
}

/// How a data frame travels, derived from the frame control field.
///
/// `Reserved` stands for the combinations of discover-route mode, multicast
/// flag and destination-IEEE flag that define no transmission method.
#[derive(Debug, Clone, Copy, PartialEq, Eq, Structural)]
pub enum DataTransmissionMethod {
    Unicast,
    Broadcast,
    Multicast,
    SourceRouted,
    Reserved,
}

impl View for FrameControl {
    type V = FrameControl;

    open spec fn view(&self) -> FrameControl {
        *self
    }
}

impl DiscoverRoute {
    /// The discover-route mode coded by the two-bit value `b`.
    pub open spec fn spec_from_u8(b: u8) -> DiscoverRoute {
        if b == 0 {
            DiscoverRoute::Suppress
        } else if b == 1 {
            DiscoverRoute::Enable
        } else {
            DiscoverRoute::Reserved
        }
    }

    /// Maps 0 to `Suppress`, 1 to `Enable` and every other value to `Reserved`.
    pub fn from_u8(b: u8) -> (r: DiscoverRoute)
        ensures
            r == Self::spec_from_u8(b),
    {
        match b {
            0x00 => Self::Suppress,
            0x01 => Self::Enable,
            _ => Self::Reserved,
        }
    }
}

impl FrameControl {
    /// Bits [0:2): the frame type.
    pub open spec fn spec_frame_type_identifier(self) -> FrameTypeIdentifier {
        let t = self.0 & 0b11u16;
        if t == 0 {
            FrameTypeIdentifier::Data
        } else if t == 1 {
            FrameTypeIdentifier::NwkCommand
        } else if t == 2 {
            FrameTypeIdentifier::Reserved
        } else {
            FrameTypeIdentifier::InterPan
        }
    }

    /// Bits [2:6): the protocol version.
    pub open spec fn spec_protocol_version(self) -> u8 {
        ((self.0 >> 2u16) & 0b1111u16) as u8
    }

    /// Bits [6:8): the discover-route mode.
    pub open spec fn spec_discover_route(self) -> DiscoverRoute {
        DiscoverRoute::spec_from_u8(((self.0 >> 6u16) & 0b11u16) as u8)
    }

    /// Bit 8: multicast.
    pub open spec fn spec_multicast_flag(self) -> bool {
        (self.0 >> 8u16) & 1u16 != 0
    }

    /// Bit 9: security.
    pub open spec fn spec_security_flag(self) -> bool {
        (self.0 >> 9u16) & 1u16 != 0
    }

    /// Bit 10: a source-route subframe is present.
    pub open spec fn spec_source_flag(self) -> bool {
        (self.0 >> 10u16) & 1u16 != 0
    }

    /// Bit 11: the destination IEEE address is present.
    pub open spec fn spec_destination_ieee_flag(self) -> bool {
        (self.0 >> 11u16) & 1u16 != 0
    }

    /// Bit 12: the source IEEE address is present.
    pub open spec fn spec_source_ieee_flag(self) -> bool {
        (self.0 >> 12u16) & 1u16 != 0
    }

    /// Bit 13: end-device initiator.
    pub open spec fn spec_end_device_initiator(self) -> bool {
        (self.0 >> 13u16) & 1u16 != 0
    }

    /// Table 3-45: the transmission method, `Reserved` outside the table.
    pub open spec fn spec_transmission_method(self) -> DataTransmissionMethod {
        let route = self.spec_discover_route();
        let multicast = self.spec_multicast_flag();
        let destination_ieee = self.spec_destination_ieee_flag();
        if route == DiscoverRoute::Suppress && !multicast && !destination_ieee {
            DataTransmissionMethod::Broadcast
        } else if route == DiscoverRoute::Suppress && multicast && !destination_ieee {
            DataTransmissionMethod::Multicast
        } else if route != DiscoverRoute::Reserved && !multicast {
            DataTransmissionMethod::Unicast
        } else {
            DataTransmissionMethod::Reserved
        }
    }

    /// See Section 3.3.1.1.1.
    pub fn frame_type_identifier(&self) -> (r: FrameTypeIdentifier)
        ensures
            r == self.spec_frame_type_identifier(),
    {
        let t = self.0 & 0b11u16;
        if t == 0 {
            FrameTypeIdentifier::Data
        } else if t == 1 {
            FrameTypeIdentifier::NwkCommand
        } else if t == 2 {
            FrameTypeIdentifier::Reserved
        } else {
            FrameTypeIdentifier::InterPan
        }
    }

    /// See Section 3.3.1.1.2.
    pub fn protocol_version(&self) -> (r: u8)
        ensures
            r == self.spec_protocol_version(),
    {
        ((self.0 >> 2u16) & 0b1111u16) as u8
    }

    /// See Section 3.3.1.1.3.
    pub fn discover_route(&self) -> (r: DiscoverRoute)
        ensures
            r == self.spec_discover_route(),
    {
        DiscoverRoute::from_u8(((self.0 >> 6u16) & 0b11u16) as u8)
    }

    /// See Section 3.3.1.1.4.
    pub fn multicast_flag(&self) -> (r: bool)
        ensures
            r == self.spec_multicast_flag(),
    {
        (self.0 >> 8u16) & 1u16 != 0
    }

    /// The security sub-field is 1 if, and only if, the frame is to have NWK
    /// security operations enabled. See Section 3.3.1.1.5.
    pub fn security_flag(&self) -> (r: bool)
        ensures
            r == self.spec_security_flag(),
    {
        (self.0 >> 9u16) & 1u16 != 0
    }

    /// The source route sub-field is 1 if and only if a source route subframe
    /// is present in the NWK header. See Section 3.3.1.1.6.
    pub fn source_flag(&self) -> (r: bool)
        ensures
            r == self.spec_source_flag(),
    {
        (self.0 >> 10u16) & 1u16 != 0
    }

    /// The destination IEEE address sub-field is 1 if, and only if, the NWK
    /// header includes the full IEEE address of the destination.
    /// See Section 3.3.1.1.7.
    pub fn destination_ieee_flag(&self) -> (r: bool)
        ensures
            r == self.spec_destination_ieee_flag(),
    {
        (self.0 >> 11u16) & 1u16 != 0
    }

    /// The source IEEE address sub-field is 1 if, and only if, the NWK header
    /// includes the full IEEE address of the source device.
    /// See Section 3.3.1.1.8.
    pub fn source_ieee_flag(&self) -> (r: bool)
        ensures
            r == self.spec_source_ieee_flag(),
    {
        (self.0 >> 12u16) & 1u16 != 0
    }

    /// See Section 3.3.1.1.9.
    pub fn end_device_initiator(&self) -> (r: bool)
        ensures
            r == self.spec_end_device_initiator(),
    {
        (self.0 >> 13u16) & 1u16 != 0
    }

    /// See Table 3-45. Combinations outside the table give `Reserved`.
    pub fn transmission_method(&self) -> (r: DataTransmissionMethod)
        ensures
            r == self.spec_transmission_method(),
    {
        let multicast = self.multicast_flag();
        let destination_ieee = self.destination_ieee_flag();
        match self.discover_route() {
            DiscoverRoute::Suppress => {
                if !multicast && !destination_ieee {
                    DataTransmissionMethod::Broadcast
                } else if multicast && !destination_ieee {
                    DataTransmissionMethod::Multicast
                } else if !multicast {
                    DataTransmissionMethod::Unicast
                } else {
                    DataTransmissionMethod::Reserved
                }
            },
            DiscoverRoute::Enable => {
                if !multicast {
                    DataTransmissionMethod::Unicast
                } else {
                    DataTransmissionMethod::Reserved
                }
            },
            DiscoverRoute::Reserved => DataTransmissionMethod::Reserved,
        }
    }

    /// Decodes a frame control word at `pos`.
    pub fn unpack_at(src: &[u8], pos: usize) -> (r: Result<(FrameControl, usize), DecodeError>)
        requires
            pos <= src@.len(),
        ensures
            decoded(r, pos, parse_frame_control(src@.skip(pos as int))),
    {
        let (v, next) = unpack_u16(src, pos)?;
        Ok((FrameControl(v), next))
    }

    /// Decodes a frame control word from the start of `src`.
    pub fn unpack_from_slice(src: &[u8]) -> (r: Result<FrameControl, DecodeError>)
        ensures
            decoded_value(r, parse_frame_control(src@)),
    {
        let (v, _) = Self::unpack_at(src, 0)?;
        Ok(v)
    }

    /// Appends the wire bytes of this word.
    pub fn pack_into(&self, out: &mut Vec<u8>)
        ensures
            final(out)@ == old(out)@ + u16_le_bytes(self.0),
    {
        pack_u16(self.0, out);
    }
}

/// A frame control word: two little-endian bytes.
pub open spec fn parse_frame_control(s: Seq<u8>) -> Parsed<FrameControl> {
    match parse_u16(s) {
        Ok((v, n)) => Ok((FrameControl(v), n)),
        Err(e) => Err(e),
    }
}

/// 3.3.1.8 Multicast Control Field.
#[derive(Debug, Clone, Copy, PartialEq, Eq, Structural)]
pub struct MulticastControl(pub u8);

/// 3.3.1.8.1 Multicast Mode Sub-Field.
#[derive(Debug, Clone, Copy, PartialEq, Eq, Structural)]
pub enum MulticastMode {
    NonMemberMode,
    MemberMode,
    Reserved,
}

impl View for MulticastControl {
    type V = MulticastControl;

    open spec fn view(&self) -> MulticastControl {
        *self
    }
}

impl MulticastControl {
    /// Bits [6:8): the multicast mode; values 0b10 and 0b11 are reserved.
    pub open spec fn spec_multicast_mode(self) -> MulticastMode {
        let m = (self.0 >> 6u8) & 0b11u8;
        if m == 0 {
            MulticastMode::NonMemberMode
        } else if m == 1 {
            MulticastMode::MemberMode
        } else {
            MulticastMode::Reserved
        }
    }

    /// Bits [3:6): the non-member radius.
    pub open spec fn spec_non_member_radius(self) -> u8 {
        (self.0 >> 3u8) & 0b111u8
    }

    /// Bits [0:2): the maximum member radius.
    pub open spec fn spec_max_member_radius(self) -> u8 {
        self.0 & 0b11u8
    }

    /// See Section 3.3.1.8.1.
    pub fn multicast_mode(&self) -> (r: MulticastMode)
        ensures
            r == self.spec_multicast_mode(),
    {
        match (self.0 >> 6u8) & 0b11u8 {
            0b00 => MulticastMode::NonMemberMode,
            0b01 => MulticastMode::MemberMode,
            _ => MulticastMode::Reserved,
        }
    }

    /// See Section 3.3.1.8.2.
    pub fn non_member_radius(&self) -> (r: u8)
        ensures
            r == self.spec_non_member_radius(),
    {
        (self.0 >> 3u8) & 0b111u8
    }

    /// The maximum value of the non-member radius sub-field for this frame.
    /// See Section 3.3.1.8.3.
    pub fn max_member_radius(&self) -> (r: u8)
        ensures
            r == self.spec_max_member_radius(),
    {
        self.0 & 0b11u8
    }

    /// Decodes a multicast control byte at `pos`.
    pub fn unpack_at(src: &[u8], pos: usize) -> (r: Result<(MulticastControl, usize), DecodeError>)
        requires
            pos <= src@.len(),
        ensures
            decoded(r, pos, parse_multicast_control(src@.skip(pos as int))),
    {
        let (b, next) = unpack_u8(src, pos)?;
        Ok((MulticastControl(b), next))
    }

    /// Appends the wire byte of this field.
    pub fn pack_into(&self, out: &mut Vec<u8>)
        ensures
            final(out)@ == old(out)@ + seq![self.0],
    {
        pack_u8(self.0, out);
    }
}

/// A multicast control field: one byte.
pub open spec fn parse_multicast_control(s: Seq<u8>) -> Parsed<MulticastControl> {
    match parse_u8(s) {
        Ok((b, n)) => Ok((MulticastControl(b), n)),
        Err(e) => Err(e),
    }
}

/// Command Frame Identifiers. See Section 3.4.
///
/// The defined identifiers run contiguously from 0x01 to 0x0d; every other
/// byte decodes to `Reserved`, which is sent as 0x0e.
#[derive(Debug, Clone, Copy, PartialEq, Eq, Structural)]
pub enum CommandFrameIdentifier {
    RouteRequest,
    RouteReply,
    NetworkStatus,
    Leave,
    RouteRecord,
    RejoinRequest,
    RejoinResponse,
    LinkStatus,
    NetworkReport,
    NetworkUpdate,
    EndDeviceTimeoutRequest,
    EndDeviceTimeoutResponse,
    LinkPowerDelta,
    Reserved,
}

impl View for CommandFrameIdentifier {
    type V = CommandFrameIdentifier;

    open spec fn view(&self) -> CommandFrameIdentifier {
        *self
    }
}

impl CommandFrameIdentifier {
    /// The identifier coded by the byte `b`.
    pub open spec fn spec_from_u8(b: u8) -> CommandFrameIdentifier {
        if b == 0x01 {
            CommandFrameIdentifier::RouteRequest
        } else if b == 0x02 {
            CommandFrameIdentifier::RouteReply
        } else if b == 0x03 {
            CommandFrameIdentifier::NetworkStatus
        } else if b == 0x04 {
            CommandFrameIdentifier::Leave
        } else if b == 0x05 {
            CommandFrameIdentifier::RouteRecord
        } else if b == 0x06 {
            CommandFrameIdentifier::RejoinRequest
        } else if b == 0x07 {
            CommandFrameIdentifier::RejoinResponse
        } else if b == 0x08 {
            CommandFrameIdentifier::LinkStatus
        } else if b == 0x09 {
            CommandFrameIdentifier::NetworkReport
        } else if b == 0x0a {
            CommandFrameIdentifier::NetworkUpdate
        } else if b == 0x0b {
            CommandFrameIdentifier::EndDeviceTimeoutRequest
        } else if b == 0x0c {
            CommandFrameIdentifier::EndDeviceTimeoutResponse
        } else if b == 0x0d {
            CommandFrameIdentifier::LinkPowerDelta
        } else {
            CommandFrameIdentifier::Reserved
        }
    }

    /// The byte that codes this identifier.
    pub open spec fn spec_to_u8(self) -> u8 {
        match self {
            CommandFrameIdentifier::RouteRequest => 0x01,
            CommandFrameIdentifier::RouteReply => 0x02,
            CommandFrameIdentifier::NetworkStatus => 0x03,
            CommandFrameIdentifier::Leave => 0x04,
            CommandFrameIdentifier::RouteRecord => 0x05,
            CommandFrameIdentifier::RejoinRequest => 0x06,
            CommandFrameIdentifier::RejoinResponse => 0x07,
            CommandFrameIdentifier::LinkStatus => 0x08,
            CommandFrameIdentifier::NetworkReport => 0x09,
            CommandFrameIdentifier::NetworkUpdate => 0x0a,
            CommandFrameIdentifier::EndDeviceTimeoutRequest => 0x0b,
            CommandFrameIdentifier::EndDeviceTimeoutResponse => 0x0c,
            CommandFrameIdentifier::LinkPowerDelta => 0x0d,
            CommandFrameIdentifier::Reserved => 0x0e,
        }
    }

    /// Maps a byte to its identifier; unknown bytes give `Reserved`.
    pub fn from_u8(b: u8) -> (r: CommandFrameIdentifier)
        ensures
            r == Self::spec_from_u8(b),
    {
        match b {
            0x01 => Self::RouteRequest,
            0x02 => Self::RouteReply,
            0x03 => Self::NetworkStatus,
            0x04 => Self::Leave,
            0x05 => Self::RouteRecord,
            0x06 => Self::RejoinRequest,
            0x07 => Self::RejoinResponse,
            0x08 => Self::LinkStatus,
            0x09 => Self::NetworkReport,
            0x0a => Self::NetworkUpdate,
            0x0b => Self::EndDeviceTimeoutRequest,
            0x0c => Self::EndDeviceTimeoutResponse,
            0x0d => Self::LinkPowerDelta,
            _ => Self::Reserved,
        }
    }

    /// The byte that codes this identifier.
    pub fn to_u8(&self) -> (r: u8)
        ensures
            r == self.spec_to_u8(),
    {
        match self {
            Self::RouteRequest => 0x01,
            Self::RouteReply => 0x02,
            Self::NetworkStatus => 0x03,
            Self::Leave => 0x04,
            Self::RouteRecord => 0x05,
            Self::RejoinRequest => 0x06,
            Self::RejoinResponse => 0x07,
            Self::LinkStatus => 0x08,
            Self::NetworkReport => 0x09,
            Self::NetworkUpdate => 0x0a,
            Self::EndDeviceTimeoutRequest => 0x0b,
            Self::EndDeviceTimeoutResponse => 0x0c,
            Self::LinkPowerDelta => 0x0d,
            Self::Reserved => 0x0e,
        }
    }

    /// Decodes a command identifier at `pos`.
    pub fn unpack_at(src: &[u8], pos: usize) -> (r: Result<(CommandFrameIdentifier, usize), DecodeError>)
        requires
            pos <= src@.len(),
        ensures
            decoded(r, pos, parse_command_frame_identifier(src@.skip(pos as int))),
    {
        let (b, next) = unpack_u8(src, pos)?;
        Ok((Self::from_u8(b), next))
    }

    /// Appends the byte that codes this identifier.
    pub fn pack_into(&self, out: &mut Vec<u8>)
        ensures
            final(out)@ == old(out)@ + seq![self.spec_to_u8()],
    {
        pack_u8(self.to_u8(), out);
    }
}

/// A command identifier: one byte.
pub open spec fn parse_command_frame_identifier(s: Seq<u8>) -> Parsed<CommandFrameIdentifier> {
    match parse_u8(s) {
        Ok((b, n)) => Ok((CommandFrameIdentifier::spec_from_u8(b), n)),
        Err(e) => Err(e),
    }
}

/// Encoding an identifier and decoding the byte gives the identifier back.
pub proof fn lemma_command_identifier_round_trip(c: CommandFrameIdentifier)
    ensures
        CommandFrameIdentifier::spec_from_u8(c.spec_to_u8()) == c,
{
}

/// Source Route Subframe. See Section 3.3.1.9.
#[derive(Debug)]
pub struct SourceRouteSubframe {
    /// The number of relays in the relay list. See Section 3.3.1.9.1.
    pub relay_count: u8,
    /// The index of the next relay in the relay list to which the packet will
    /// be transmitted. See Section 3.3.1.9.2.
    pub relay_index: u8,
    /// Relay addresses from closest to the destination to closest to the
    /// originator. On the wire it takes every byte after the index.
    pub relay_list: heapless::Vec<u8, 16>,
}

/// The model of a source-route subframe.
pub ghost struct SourceRouteSubframeView {
    pub relay_count: u8,
    pub relay_index: u8,
    pub relay_list: Seq<u8>,
}

impl View for SourceRouteSubframe {
    type V = SourceRouteSubframeView;

    open spec fn view(&self) -> SourceRouteSubframeView {
        SourceRouteSubframeView {
            relay_count: self.relay_count,
            relay_index: self.relay_index,
            relay_list: relay_bytes(self.relay_list),
        }
    }
}

/// A source-route subframe: count, index, then all remaining bytes as the
/// relay list, which must fit its capacity.
pub open spec fn parse_source_route_subframe(s: Seq<u8>) -> Parsed<SourceRouteSubframeView> {
    if s.len() < 2 {
        Err(DecodeError::InsufficientBytes)
    } else if s.len() - 2 > RELAY_LIST_SIZE {
        Err(DecodeError::CapacityExceeded)
    } else {
        Ok(
            (
                SourceRouteSubframeView {
                    relay_count: s[0],
                    relay_index: s[1],
                    relay_list: s.skip(2),
                },
                s.len(),
            ),
        )
    }
}

/// The wire bytes of a source-route subframe.
pub open spec fn encode_source_route_subframe(r: SourceRouteSubframeView) -> Seq<u8> {
    seq![r.relay_count, r.relay_index] + r.relay_list
}

/// Decoding the bytes of a subframe whose relay list fits gives it back.
pub proof fn lemma_source_route_subframe_round_trip(r: SourceRouteSubframeView)
    requires
        r.relay_list.len() <= RELAY_LIST_SIZE,
    ensures
        parse_source_route_subframe(encode_source_route_subframe(r)) == Ok::<
            (SourceRouteSubframeView, nat),
            DecodeError,
        >((r, encode_source_route_subframe(r).len())),
{
    let s = encode_source_route_subframe(r);
    assert(s.skip(2) =~= r.relay_list);
}

impl SourceRouteSubframe {
    /// Decodes a subframe at `pos`; it takes every byte up to the end of `src`.
    pub fn unpack_at(src: &[u8], pos: usize) -> (r: Result<(SourceRouteSubframe, usize), DecodeError>)
        requires
            pos <= src@.len(),
        ensures
            decoded(r, pos, parse_source_route_subframe(src@.skip(pos as int))),
    {
        let (relay_count, p) = unpack_u8(src, pos)?;
        let (relay_index, p) = unpack_u8(src, p)?;
        let rest = vstd::slice::slice_subrange(src, p, src.len());
        if rest.len() > RELAY_LIST_SIZE {
            return Err(DecodeError::CapacityExceeded);
        }
        match relay_list_from_slice(rest) {
            Ok(relay_list) => {
                assert(rest@ =~= src@.skip(pos as int).skip(2));
                Ok((SourceRouteSubframe { relay_count, relay_index, relay_list }, src.len()))
            },
            Err(_) => Err(DecodeError::CapacityExceeded),
        }
    }

    /// Decodes a subframe from the whole of `src`.
    pub fn unpack_from_slice(src: &[u8]) -> (r: Result<SourceRouteSubframe, DecodeError>)
        ensures
            decoded_value(r, parse_source_route_subframe(src@)),
    {
        assert(src@.skip(0) =~= src@);
        let (v, _) = Self::unpack_at(src, 0)?;
        Ok(v)
    }

    /// Appends the wire bytes of this subframe.
    pub fn pack_into(&self, out: &mut Vec<u8>)
        ensures
            final(out)@ == old(out)@ + encode_source_route_subframe(self@),
            self@.relay_list.len() <= RELAY_LIST_SIZE,
    {
        pack_u8(self.relay_count, out);
        pack_u8(self.relay_index, out);
        let relays = relay_list_as_slice(&self.relay_list);
        let mut i: usize = 0;
        while i < relays.len()
            invariant
                0 <= i <= relays@.len(),
                out@ == old(out)@ + seq![self.relay_count, self.relay_index] + relays@.take(i as int),
            decreases relays@.len() - i,
        {
            out.push(relays[i]);
            i = i + 1;
            assert(relays@.take(i as int) =~= relays@.take(i - 1) + seq![relays@[i - 1]]);
        }
        assert(relays@.take(i as int) =~= relays@);
        assert(out@ =~= old(out)@ + encode_source_route_subframe(self@));
    }
}

/// 3.3.1 General NPDU Frame Format.
#[derive(Debug)]
pub struct NwkHeader {
    /// See Section 3.3.1.1.
    pub frame_control: FrameControl,
    /// See Section 3.3.1.2.
    pub destination: ShortAddress,
    /// See Section 3.3.1.3.
    pub source: ShortAddress,
    /// See Section 3.3.1.4.
    pub radius: u8,
    /// See Section 3.3.1.5.
    pub sequence_number: u8,
    /// Present if and only if the destination IEEE flag is set.
    /// See Section 3.3.1.6.
    pub destination_ieee: Option<IeeeAddress>,
    /// Present if and only if the source IEEE flag is set.
    /// See Section 3.3.1.7.
    pub source_ieee: Option<IeeeAddress>,
    /// Present if and only if the multicast flag is set.
    /// See Section 3.3.1.8.
    pub multicast_control: Option<MulticastControl>,
    /// Present if and only if the source route flag is set.
    /// See Section 3.3.1.9.
    pub source_route_subframe: Option<SourceRouteSubframe>,
}

/// The model of a NWK header.
pub ghost struct NwkHeaderView {
    pub frame_control: FrameControl,
    pub destination: ShortAddress,
    pub source: ShortAddress,
    pub radius: u8,
    pub sequence_number: u8,
    pub destination_ieee: Option<IeeeAddress>,
    pub source_ieee: Option<IeeeAddress>,
    pub multicast_control: Option<MulticastControl>,
    pub source_route_subframe: Option<SourceRouteSubframeView>,
}

impl View for NwkHeader {
    type V = NwkHeaderView;

    open spec fn view(&self) -> NwkHeaderView {
        NwkHeaderView {
            frame_control: self.frame_control,
            destination: self.destination,
            source: self.source,
            radius: self.radius,
            sequence_number: self.sequence_number,
            destination_ieee: self.destination_ieee,
            source_ieee: self.source_ieee,
            multicast_control: self.multicast_control,
            source_route_subframe: match self.source_route_subframe {
                Some(r) => Some(r@),
                None => None,
            },
        }
    }
}

impl NwkHeaderView {
    /// Each optional field is present exactly when its flag is set, and a
    /// relay list fits its capacity.
    pub open spec fn wf(self) -> bool {
        &&& (self.destination_ieee is Some <==> self.frame_control.spec_destination_ieee_flag())
        &&& (self.source_ieee is Some <==> self.frame_control.spec_source_ieee_flag())
        &&& (self.multicast_control is Some <==> self.frame_control.spec_multicast_flag())
        &&& (self.source_route_subframe is Some <==> self.frame_control.spec_source_flag())
        &&& (self.source_route_subframe matches Some(r) ==> r.relay_list.len() <= RELAY_LIST_SIZE)
    }
}

/// Offset of the source IEEE address, when present.
pub open spec fn source_ieee_offset(fc: FrameControl) -> nat {
    8 + ieee_field_len(fc.spec_destination_ieee_flag())
}

/// Offset of the multicast control byte, when present.
pub open spec fn multicast_control_offset(fc: FrameControl) -> nat {
    source_ieee_offset(fc) + ieee_field_len(fc.spec_source_ieee_flag())
}

/// Offset of the source-route subframe, when present: the length of the
/// header without it.
pub open spec fn source_route_offset(fc: FrameControl) -> nat {
    multicast_control_offset(fc) + byte_field_len(fc.spec_multicast_flag())
}

/// A NWK header: the frame control word, the two short addresses, radius and
/// sequence number, then destination IEEE address, source IEEE address,
/// multicast control and source-route subframe, each present only when its
/// flag is set, in that order.
#[verifier::opaque]
pub open spec fn parse_nwk_header(s: Seq<u8>) -> Parsed<NwkHeaderView> {
    if s.len() < 8 {
        Err(DecodeError::InsufficientBytes)
    } else {
        let fc = FrameControl(u16_from_le(s));
        let src_at = source_ieee_offset(fc);
        let mc_at = multicast_control_offset(fc);
        let srs_at = source_route_offset(fc);
        if s.len() < srs_at {
            Err(DecodeError::InsufficientBytes)
        } else {
            let subframe: Parsed<Option<SourceRouteSubframeView>> = if fc.spec_source_flag() {
                match parse_source_route_subframe(s.skip(srs_at as int)) {
                    Ok((r, n)) => Ok((Some(r), n)),
                    Err(e) => Err(e),
                }
            } else {
                Ok((None, 0))
            };
            match subframe {
                Err(e) => Err(e),
                Ok((source_route_subframe, n)) => Ok(
                    (
                        NwkHeaderView {
                            frame_control: fc,
                            destination: ShortAddress(u16_from_le(s.skip(2))),
                            source: ShortAddress(u16_from_le(s.skip(4))),
                            radius: s[6],
                            sequence_number: s[7],
                            destination_ieee: if fc.spec_destination_ieee_flag() {
                                Some(IeeeAddress(u64_from_le(s.skip(8))))
                            } else {
                                None
                            },
                            source_ieee: if fc.spec_source_ieee_flag() {
                                Some(IeeeAddress(u64_from_le(s.skip(src_at as int))))
                            } else {
                                None
                            },
                            multicast_control: if fc.spec_multicast_flag() {
                                Some(MulticastControl(s[mc_at as int]))
                            } else {
                                None
                            },
                            source_route_subframe,
                        },
                        srs_at + n,
                    ),
                ),
            }
        }
    }
}

/// The wire bytes of an optional extended address.
pub open spec fn encode_optional_ieee(a: Option<IeeeAddress>) -> Seq<u8> {
    match a {
        Some(a) => encode_ieee_address(a),
        None => Seq::empty(),
    }
}

/// The wire bytes of an optional multicast control byte.
pub open spec fn encode_optional_multicast_control(m: Option<MulticastControl>) -> Seq<u8> {
    match m {
        Some(m) => seq![m.0],
        None => Seq::empty(),
    }
}

/// The wire bytes of an optional source-route subframe.
pub open spec fn encode_optional_source_route(r: Option<SourceRouteSubframeView>) -> Seq<u8> {
    match r {
        Some(r) => encode_source_route_subframe(r),
        None => Seq::empty(),
    }
}

/// The wire bytes of the mandatory part of a header.
pub open spec fn encode_nwk_header_fixed(h: NwkHeaderView) -> Seq<u8> {
    u16_le_bytes(h.frame_control.0) + encode_short_address(h.destination) + encode_short_address(
        h.source,
    ) + seq![h.radius, h.sequence_number]
}

/// The wire bytes of the optional part of a header, in field order.
pub open spec fn encode_nwk_header_optional(h: NwkHeaderView) -> Seq<u8> {
    encode_optional_ieee(h.destination_ieee) + (encode_optional_ieee(h.source_ieee) + (
    encode_optional_multicast_control(h.multicast_control) + encode_optional_source_route(
        h.source_route_subframe,
    )))
}

/// The wire bytes of a header.
pub open spec fn encode_nwk_header(h: NwkHeaderView) -> Seq<u8> {
    encode_nwk_header_fixed(h) + encode_nwk_header_optional(h)
}

/// The mandatory fields read back from the bytes of the fixed part.
proof fn lemma_nwk_header_fixed_fields(h: NwkHeaderView, t: Seq<u8>)
    ensures
        ({
            let s = encode_nwk_header_fixed(h) + t;
            &&& s.len() == 8 + t.len()
            &&& u16_from_le(s) == h.frame_control.0
            &&& u16_from_le(s.skip(2)) == h.destination.0
            &&& u16_from_le(s.skip(4)) == h.source.0
            &&& s[6] == h.radius
            &&& s[7] == h.sequence_number
            &&& s.skip(8) == t
        }),
{
    let s = encode_nwk_header_fixed(h) + t;
    let d = seq![h.radius, h.sequence_number] + t;
    let c = encode_short_address(h.source) + d;
    let b = encode_short_address(h.destination) + c;
    assert(s =~= u16_le_bytes(h.frame_control.0) + b);
    assert(s.skip(2) =~= b);
    assert(s.skip(4) =~= c);
    assert(s.skip(8) =~= t);
    lemma_u16_round_trip(h.frame_control.0, b);
    lemma_u16_round_trip(h.destination.0, c);
    lemma_u16_round_trip(h.source.0, d);
}

/// The optional fields read back from the bytes of the optional part.
proof fn lemma_nwk_header_optional_fields(h: NwkHeaderView, rest: Seq<u8>)
    requires
        h.wf(),
    ensures
        ({
            let fc = h.frame_control;
            let s = encode_nwk_header_optional(h) + rest;
            let src_at = ieee_field_len(fc.spec_destination_ieee_flag());
            let mc_at = src_at + ieee_field_len(fc.spec_source_ieee_flag());
            let srs_at = mc_at + byte_field_len(fc.spec_multicast_flag());
            &&& s.len() >= srs_at
            &&& h.destination_ieee matches Some(x) ==> u64_from_le(s) == x.0
            &&& h.source_ieee matches Some(x) ==> u64_from_le(s.skip(src_at as int)) == x.0
            &&& h.multicast_control matches Some(m) ==> s[mc_at as int] == m.0
            &&& s.skip(srs_at as int) == encode_optional_source_route(h.source_route_subframe)
                + rest
            &&& encode_nwk_header_optional(h).len() == srs_at + encode_optional_source_route(
                h.source_route_subframe,
            ).len()
        }),
{
    let fc = h.frame_control;
    let e = encode_optional_ieee(h.destination_ieee);
    let f = encode_optional_ieee(h.source_ieee);
    let g = encode_optional_multicast_control(h.multicast_control);
    let k = encode_optional_source_route(h.source_route_subframe);
    let s = encode_nwk_header_optional(h) + rest;
    let tail_g = g + (k + rest);
    let tail_f = f + tail_g;
    assert(s =~= e + tail_f);
    assert(e.len() == ieee_field_len(fc.spec_destination_ieee_flag()));
    assert(f.len() == ieee_field_len(fc.spec_source_ieee_flag()));
    assert(g.len() == byte_field_len(fc.spec_multicast_flag()));
    assert(s.skip(e.len() as int) =~= tail_f);
    assert(s.skip((e.len() + f.len()) as int) =~= tail_g);
    assert(s.skip((e.len() + f.len() + g.len()) as int) =~= k + rest);
    if let Some(x) = h.destination_ieee {
        lemma_u64_round_trip(x.0, tail_f);
    }
    if let Some(x) = h.source_ieee {
        lemma_u64_round_trip(x.0, tail_g);
    }
}

/// Decoding the bytes of a well-formed header, followed by `rest`, gives the
/// header back and stops at `rest`. A source-route subframe takes every
/// remaining byte, so with one present `rest` must be empty.
#[verifier::rlimit(40)]
pub proof fn lemma_nwk_header_round_trip(h: NwkHeaderView, rest: Seq<u8>)
    requires
        h.wf(),
        h.source_route_subframe is Some ==> rest.len() == 0,
    ensures
        parse_nwk_header(encode_nwk_header(h) + rest) == Ok::<(NwkHeaderView, nat), DecodeError>(
            (h, encode_nwk_header(h).len()),
        ),
{
    reveal(parse_nwk_header);
    let fc = h.frame_control;
    let t = encode_nwk_header_optional(h) + rest;
    let s = encode_nwk_header(h) + rest;
    assert(s =~= encode_nwk_header_fixed(h) + t);
    lemma_nwk_header_fixed_fields(h, t);
    lemma_nwk_header_optional_fields(h, rest);
    let src_at = source_ieee_offset(fc);
    let mc_at = multicast_control_offset(fc);
    let srs_at = source_route_offset(fc);
    assert(s.skip(src_at as int) =~= t.skip(src_at - 8));
    assert(s.skip(srs_at as int) =~= t.skip(srs_at - 8));
    assert(s.skip(8) =~= t);
    if let Some(m) = h.multicast_control {
        assert(s[mc_at as int] == t[mc_at - 8]);
    }
    if let Some(r) = h.source_route_subframe {
        assert(encode_optional_source_route(h.source_route_subframe) + rest
            =~= encode_source_route_subframe(r));
        lemma_source_route_subframe_round_trip(r);
    }
}

/// A decoded header is well-formed, and encoding it gives back exactly the
/// bytes it was decoded from.
#[verifier::rlimit(40)]
pub proof fn lemma_nwk_header_canonical(s: Seq<u8>)
    requires
        parse_nwk_header(s) is Ok,
    ensures
        ({
            let (h, n) = parse_nwk_header(s)->Ok_0;
            &&& h.wf()
            &&& n <= s.len()
            &&& encode_nwk_header(h) == s.take(n as int)
        }),
{
    reveal(parse_nwk_header);
    let (h, n) = parse_nwk_header(s)->Ok_0;
    let fc = h.frame_control;
    let src_at = source_ieee_offset(fc);
    let mc_at = multicast_control_offset(fc);
    let srs_at = source_route_offset(fc);
    lemma_u16_canonical(s);
    lemma_u16_canonical(s.skip(2));
    lemma_u16_canonical(s.skip(4));
    assert(encode_nwk_header_fixed(h) =~= s.take(8));
    let e = encode_optional_ieee(h.destination_ieee);
    let f = encode_optional_ieee(h.source_ieee);
    let g = encode_optional_multicast_control(h.multicast_control);
    let k = encode_optional_source_route(h.source_route_subframe);
    if fc.spec_destination_ieee_flag() {
        lemma_u64_canonical(s.skip(8));
    }
    assert(e =~= s.subrange(8, src_at as int));
    if fc.spec_source_ieee_flag() {
        lemma_u64_canonical(s.skip(src_at as int));
    }
    assert(f =~= s.subrange(src_at as int, mc_at as int));
    assert(g =~= s.subrange(mc_at as int, srs_at as int));
    assert(k =~= s.subrange(srs_at as int, n as int));
    assert(encode_nwk_header_optional(h) =~= s.subrange(8, n as int));
    assert(encode_nwk_header(h) =~= s.take(n as int));
}

/// A flag that is clear leaves its optional field absent, and the field takes
/// no bytes: the header's length is the mandatory eight bytes plus the
/// lengths of the flagged fields only.
pub proof fn lemma_clear_flag_field_absent(s: Seq<u8>)
    requires
        parse_nwk_header(s) is Ok,
    ensures
        ({
            let (h, n) = parse_nwk_header(s)->Ok_0;
            let fc = h.frame_control;
            &&& !fc.spec_destination_ieee_flag() ==> h.destination_ieee is None
            &&& !fc.spec_source_ieee_flag() ==> h.source_ieee is None
            &&& !fc.spec_multicast_flag() ==> h.multicast_control is None
            &&& !fc.spec_source_flag() ==> h.source_route_subframe is None
            &&& n == 8 + ieee_field_len(fc.spec_destination_ieee_flag()) + ieee_field_len(
                fc.spec_source_ieee_flag(),
            ) + byte_field_len(fc.spec_multicast_flag()) + match h.source_route_subframe {
                Some(r) => 2 + r.relay_list.len(),
                None => 0,
            }
        }),
{
    reveal(parse_nwk_header);
}

impl NwkHeader {
    /// Decodes a header at `pos`, reading each optional field only when its
    /// flag in the frame control word is set.
    pub fn unpack_at(src: &[u8], pos: usize) -> (r: Result<(NwkHeader, usize), DecodeError>)
        requires
            pos <= src@.len(),
        ensures
            decoded(r, pos, parse_nwk_header(src@.skip(pos as int))),
            r is Ok ==> r->Ok_0.1 <= src@.len(),
    {
        reveal(parse_nwk_header);
        let ghost s = src@.skip(pos as int);
        let (frame_control, p) = FrameControl::unpack_at(src, pos)?;
        let (destination, p) = ShortAddress::unpack_at(src, p)?;
        let (source, p) = ShortAddress::unpack_at(src, p)?;
        let (radius, p) = unpack_u8(src, p)?;
        let (sequence_number, p) = unpack_u8(src, p)?;
        assert(s.skip(2)[0] == src@[pos + 2] && s.skip(2)[1] == src@[pos + 3]);
        assert(s.skip(4)[0] == src@[pos + 4] && s.skip(4)[1] == src@[pos + 5]);
        let (destination_ieee, p) = if frame_control.destination_ieee_flag() {
            let (a, p) = IeeeAddress::unpack_at(src, p)?;
            (Some(a), p)
        } else {
            (None, p)
        };
        let (source_ieee, p) = if frame_control.source_ieee_flag() {
            let (a, p) = IeeeAddress::unpack_at(src, p)?;
            (Some(a), p)
        } else {
            (None, p)
        };
        let (multicast_control, p) = if frame_control.multicast_flag() {
            let (m, p) = MulticastControl::unpack_at(src, p)?;
            (Some(m), p)
        } else {
            (None, p)
        };
        let (source_route_subframe, p) = if frame_control.source_flag() {
            assert(src@.skip(p as int) =~= s.skip(p - pos));
            let (r, p) = SourceRouteSubframe::unpack_at(src, p)?;
            (Some(r), p)
        } else {
            (None, p)
        };
        let header = NwkHeader {
            frame_control,
            destination,
            source,
            radius,
            sequence_number,
            destination_ieee,
            source_ieee,
            multicast_control,
            source_route_subframe,
        };
        Ok((header, p))
    }

    /// Decodes a header from the start of `src`.
    pub fn unpack_from_slice(src: &[u8]) -> (r: Result<NwkHeader, DecodeError>)
        ensures
            decoded_value(r, parse_nwk_header(src@)),
    {
        assert(src@.skip(0) =~= src@);
        let (v, _) = Self::unpack_at(src, 0)?;
        Ok(v)
    }

    /// Appends the wire bytes of this header.
    pub fn pack_into(&self, out: &mut Vec<u8>)
        ensures
            final(out)@ == old(out)@ + encode_nwk_header(self@),
            self@.source_route_subframe matches Some(r) ==> r.relay_list.len() <= RELAY_LIST_SIZE,
    {
        let ghost start = out@;
        self.frame_control.pack_into(out);
        self.destination.pack_into(out);
        self.source.pack_into(out);
        pack_u8(self.radius, out);
        pack_u8(self.sequence_number, out);
        assert(out@ =~= start + encode_nwk_header_fixed(self@));
        let ghost fixed = out@;
        if let Some(a) = &self.destination_ieee {
            a.pack_into(out);
        }
        assert(out@ =~= fixed + encode_optional_ieee(self.destination_ieee));
        let ghost with_dst = out@;
        if let Some(a) = &self.source_ieee {
            a.pack_into(out);
        }
        assert(out@ =~= with_dst + encode_optional_ieee(self.source_ieee));
        let ghost with_src = out@;
        if let Some(m) = &self.multicast_control {
            m.pack_into(out);
        }
        assert(out@ =~= with_src + encode_optional_multicast_control(self.multicast_control));
        let ghost with_mc = out@;
        if let Some(r) = &self.source_route_subframe {
            r.pack_into(out);
        }
        assert(out@ =~= with_mc + encode_optional_source_route(self@.source_route_subframe));
        assert(out@ =~= start + encode_nwk_header_fixed(self@) + encode_nwk_header_optional(
            self@,
        ));
    }
}

/// NWK Data Frame. See Section 3.3.2.1.
#[derive(Debug)]
pub struct NwkDataFrame {
    pub header: NwkHeader,
    pub payload: heapless::Vec<u8, 128>,
}

/// NWK Command Frame. See Section 3.3.2.2.
#[derive(Debug)]
pub struct NwkCommandFrame {
    pub header: NwkHeader,
    pub command_identifier: CommandFrameIdentifier,
    pub payload: heapless::Vec<u8, 128>,
}

/// A NWK frame, one variant per frame type.
#[derive(Debug)]
pub enum NwkFrame {
    Data(NwkDataFrame),
    NwkCommand(NwkCommandFrame),
    Reserved(NwkHeader),
    InterPan(NwkHeader),
}

/// The model of a NWK frame.
pub ghost enum NwkFrameView {
    Data { header: NwkHeaderView, payload: Seq<u8> },
    NwkCommand {
        header: NwkHeaderView,
        command_identifier: CommandFrameIdentifier,
        payload: Seq<u8>,
    },
    Reserved(NwkHeaderView),
    InterPan(NwkHeaderView),
}

impl View for NwkFrame {
    type V = NwkFrameView;

    open spec fn view(&self) -> NwkFrameView {
        match self {
            NwkFrame::Data(d) => NwkFrameView::Data {
                header: d.header@,
                payload: payload_bytes(d.payload),
            },
            NwkFrame::NwkCommand(c) => NwkFrameView::NwkCommand {
                header: c.header@,
                command_identifier: c.command_identifier,
                payload: payload_bytes(c.payload),
            },
            NwkFrame::Reserved(h) => NwkFrameView::Reserved(h@),
            NwkFrame::InterPan(h) => NwkFrameView::InterPan(h@),
        }
    }
}

impl NwkFrameView {
    /// The header common to all variants.
    pub open spec fn header(self) -> NwkHeaderView {
        match self {
            NwkFrameView::Data { header, .. } => header,
            NwkFrameView::NwkCommand { header, .. } => header,
            NwkFrameView::Reserved(header) => header,
            NwkFrameView::InterPan(header) => header,
        }
    }

    /// The frame type that the variant stands for.
    pub open spec fn variant_type(self) -> FrameTypeIdentifier {
        match self {
            NwkFrameView::Data { .. } => FrameTypeIdentifier::Data,
            NwkFrameView::NwkCommand { .. } => FrameTypeIdentifier::NwkCommand,
            NwkFrameView::Reserved(_) => FrameTypeIdentifier::Reserved,
            NwkFrameView::InterPan(_) => FrameTypeIdentifier::InterPan,
        }
    }

    /// A frame that decoding its own bytes gives back: a well-formed header
    /// whose frame type matches the variant, a payload within capacity, and no
    /// payload or command identifier after a source-route subframe, which
    /// would take those bytes as relays.
    pub open spec fn wf(self) -> bool {
        let header = self.header();
        &&& header.wf()
        &&& header.frame_control.spec_frame_type_identifier() == self.variant_type()
        &&& match self {
            NwkFrameView::Data { payload, .. } => {
                &&& payload.len() <= PAYLOAD_SIZE
                &&& header.source_route_subframe is Some ==> payload.len() == 0
            },
            NwkFrameView::NwkCommand { payload, .. } => {
                &&& payload.len() <= PAYLOAD_SIZE
                &&& header.source_route_subframe is None
            },
            _ => true,
        }
    }
}

/// A NWK frame: the header, then by frame type a payload of every remaining
/// byte (data), a command identifier and a payload of every remaining byte
/// (command), or nothing (reserved and inter-PAN).
pub open spec fn parse_nwk_frame(s: Seq<u8>) -> Parsed<NwkFrameView> {
    match parse_nwk_header(s) {
        Err(e) => Err(e),
        Ok((header, n)) => {
            let rest = s.skip(n as int);
            match header.frame_control.spec_frame_type_identifier() {
                FrameTypeIdentifier::Data => if rest.len() > PAYLOAD_SIZE {
                    Err(DecodeError::CapacityExceeded)
                } else {
                    Ok((NwkFrameView::Data { header, payload: rest }, s.len()))
                },
                FrameTypeIdentifier::NwkCommand => if rest.len() < 1 {
                    Err(DecodeError::InsufficientBytes)
                } else if rest.len() - 1 > PAYLOAD_SIZE {
                    Err(DecodeError::CapacityExceeded)
                } else {
                    Ok(
                        (
                            NwkFrameView::NwkCommand {
                                header,
                                command_identifier: CommandFrameIdentifier::spec_from_u8(rest[0]),
                                payload: rest.skip(1),
                            },
                            s.len(),
                        ),
                    )
                },
                FrameTypeIdentifier::Reserved => Ok((NwkFrameView::Reserved(header), n)),
                FrameTypeIdentifier::InterPan => Ok((NwkFrameView::InterPan(header), n)),
            }
        },
    }
}

/// The wire bytes of a frame.
pub open spec fn encode_nwk_frame(f: NwkFrameView) -> Seq<u8> {
    match f {
        NwkFrameView::Data { header, payload } => encode_nwk_header(header) + payload,
        NwkFrameView::NwkCommand { header, command_identifier, payload } => encode_nwk_header(
            header,
        ) + (seq![command_identifier.spec_to_u8()] + payload),
        NwkFrameView::Reserved(header) => encode_nwk_header(header),
        NwkFrameView::InterPan(header) => encode_nwk_header(header),
    }
}

/// Decoding the bytes of a well-formed frame gives the frame back, for every
/// combination of frame control flags.
pub proof fn lemma_nwk_frame_round_trip(f: NwkFrameView)
    requires
        f.wf(),
    ensures
        parse_nwk_frame(encode_nwk_frame(f)) == Ok::<(NwkFrameView, nat), DecodeError>(
            (f, encode_nwk_frame(f).len()),
        ),
{
    let header = f.header();
    let hb = encode_nwk_header(header);
    match f {
        NwkFrameView::Data { header, payload } => {
            lemma_nwk_header_round_trip(header, payload);
            assert((hb + payload).skip(hb.len() as int) =~= payload);
        },
        NwkFrameView::NwkCommand { header, command_identifier, payload } => {
            let body = seq![command_identifier.spec_to_u8()] + payload;
            lemma_nwk_header_round_trip(header, body);
            assert((hb + body).skip(hb.len() as int) =~= body);
            assert(body.skip(1) =~= payload);
        },
        NwkFrameView::Reserved(header) => {
            lemma_nwk_header_round_trip(header, Seq::empty());
            assert(hb + Seq::empty() =~= hb);
        },
        NwkFrameView::InterPan(header) => {
            lemma_nwk_header_round_trip(header, Seq::empty());
            assert(hb + Seq::empty() =~= hb);
        },
    }
}

/// A decoded frame is well-formed, and encoding it gives back exactly the
/// bytes it was decoded from, provided a command identifier byte was a known
/// identifier or 0x0e, the byte that `Reserved` is sent as.
pub proof fn lemma_nwk_frame_canonical(s: Seq<u8>)
    requires
        parse_nwk_frame(s) is Ok,
        parse_nwk_frame(s)->Ok_0.0 is NwkCommand ==> 0x01 <= s[parse_nwk_header(s)->Ok_0.1 as int]
            <= 0x0e,
    ensures
        ({
            let (f, m) = parse_nwk_frame(s)->Ok_0;
            &&& f.wf()
            &&& m <= s.len()
            &&& encode_nwk_frame(f) == s.take(m as int)
        }),
{
    lemma_nwk_header_canonical(s);
    let (h, n) = parse_nwk_header(s)->Ok_0;
    assert(h.source_route_subframe is Some ==> n == s.len()) by {
        reveal(parse_nwk_header);
    }
    let rest = s.skip(n as int);
    let hb = encode_nwk_header(h);
    match h.frame_control.spec_frame_type_identifier() {
        FrameTypeIdentifier::Data => {
            assert(hb + rest =~= s.take(s.len() as int));
        },
        FrameTypeIdentifier::NwkCommand => {
            assert(hb + (seq![rest[0]] + rest.skip(1)) =~= s.take(s.len() as int));
        },
        _ => {},
    }
}

/// Decodes a payload of every byte from `pos` to the end of `src`.
fn unpack_payload(src: &[u8], pos: usize) -> (r: Result<heapless::Vec<u8, 128>, DecodeError>)
    requires
        pos <= src@.len(),
    ensures
        src@.len() - pos > PAYLOAD_SIZE ==> r == Err::<heapless::Vec<u8, 128>, DecodeError>(
            DecodeError::CapacityExceeded,
        ),
        src@.len() - pos <= PAYLOAD_SIZE ==> r is Ok && payload_bytes(r->Ok_0) == src@.skip(
            pos as int,
        ),
{
    let rest = vstd::slice::slice_subrange(src, pos, src.len());
    assert(rest@ =~= src@.skip(pos as int));
    match payload_from_slice(rest) {
        Ok(payload) => Ok(payload),
        Err(_) => Err(DecodeError::CapacityExceeded),
    }
}

/// Appends every byte of a payload.
fn pack_payload(payload: &heapless::Vec<u8, 128>, out: &mut Vec<u8>)
    ensures
        final(out)@ == old(out)@ + payload_bytes(*payload),
        payload_bytes(*payload).len() <= PAYLOAD_SIZE,
{
    let bytes = payload_as_slice(payload);
    let mut i: usize = 0;
    while i < bytes.len()
        invariant
            0 <= i <= bytes@.len(),
            out@ == old(out)@ + bytes@.take(i as int),
        decreases bytes@.len() - i,
    {
        out.push(bytes[i]);
        i = i + 1;
        assert(bytes@.take(i as int) =~= bytes@.take(i - 1) + seq![bytes@[i - 1]]);
    }
    assert(bytes@.take(i as int) =~= bytes@);
}

impl NwkFrame {
    /// Return the [`FrameTypeIdentifier`] of a [`NwkFrame`].
    pub fn frame_type_identifier(&self) -> (r: FrameTypeIdentifier)
        ensures
            r == self@.header().frame_control.spec_frame_type_identifier(),
    {
        match self {
            Self::Data(nwk_data_frame) => nwk_data_frame.header.frame_control.frame_type_identifier(),
            Self::NwkCommand(nwk_command_frame) => {
                nwk_command_frame.header.frame_control.frame_type_identifier()
            },
            Self::Reserved(nwk_header) | Self::InterPan(nwk_header) => {
                nwk_header.frame_control.frame_type_identifier()
            },
        }
    }

    /// Decodes a frame from `src`: the header, then the body that its frame
    /// type selects.
    pub fn unpack_from_slice(src: &[u8]) -> (r: Result<NwkFrame, DecodeError>)
        ensures
            decoded_value(r, parse_nwk_frame(src@)),
    {
        assert(src@.skip(0) =~= src@);
        let (header, p) = NwkHeader::unpack_at(src, 0)?;
        assert(src@.skip(p as int) =~= src@.skip(0).skip(p as int));
        match header.frame_control.frame_type_identifier() {
            FrameTypeIdentifier::Data => {
                let payload = unpack_payload(src, p)?;
                Ok(NwkFrame::Data(NwkDataFrame { header, payload }))
            },
            FrameTypeIdentifier::NwkCommand => {
                let (command_identifier, q) = CommandFrameIdentifier::unpack_at(src, p)?;
                assert(src@.skip(q as int) =~= src@.skip(p as int).skip(1));
                let payload = unpack_payload(src, q)?;
                Ok(NwkFrame::NwkCommand(NwkCommandFrame { header, command_identifier, payload }))
            },
            FrameTypeIdentifier::Reserved => Ok(NwkFrame::Reserved(header)),
            FrameTypeIdentifier::InterPan => Ok(NwkFrame::InterPan(header)),
        }
    }

    /// Appends the wire bytes of this frame.
    pub fn pack_into(&self, out: &mut Vec<u8>)
        ensures
            final(out)@ == old(out)@ + encode_nwk_frame(self@),
    {
        match self {
            NwkFrame::Data(d) => {
                d.header.pack_into(out);
                pack_payload(&d.payload, out);
                assert(out@ =~= old(out)@ + encode_nwk_frame(self@));
            },
            NwkFrame::NwkCommand(c) => {
                c.header.pack_into(out);
                c.command_identifier.pack_into(out);
                pack_payload(&c.payload, out);
                assert(out@ =~= old(out)@ + encode_nwk_frame(self@));
            },
            NwkFrame::Reserved(h) | NwkFrame::InterPan(h) => {
                h.pack_into(out);
            },
        }
    }

    /// The wire bytes of this frame.
    pub fn pack(&self) -> (r: Vec<u8>)
        ensures
            r@ == encode_nwk_frame(self@),
    {
        let mut out: Vec<u8> = Vec::new();
        self.pack_into(&mut out);
        assert(out@ =~= encode_nwk_frame(self@));
        out
    }
}

/// A payload or relay list longer than its capacity is refused with
/// `CapacityExceeded`, never cut short.
pub proof fn lemma_oversized_buffers_rejected(s: Seq<u8>)
    ensures
        s.len() >= 2 && s.len() - 2 > RELAY_LIST_SIZE ==> parse_source_route_subframe(s)
            == Err::<(SourceRouteSubframeView, nat), DecodeError>(DecodeError::CapacityExceeded),
        parse_nwk_header(s) matches Ok((h, n)) && h.frame_control.spec_frame_type_identifier()
            == FrameTypeIdentifier::Data && s.len() - n > PAYLOAD_SIZE ==> parse_nwk_frame(s)
            == Err::<(NwkFrameView, nat), DecodeError>(DecodeError::CapacityExceeded),
        parse_nwk_header(s) matches Ok((h, n)) && h.frame_control.spec_frame_type_identifier()
            == FrameTypeIdentifier::NwkCommand && s.len() - n > PAYLOAD_SIZE + 1
            ==> parse_nwk_frame(s) == Err::<(NwkFrameView, nat), DecodeError>(
            DecodeError::CapacityExceeded,
        ),
{
}

/// Decoding an empty byte sequence as any field or frame fails with
/// `InsufficientBytes`.
pub proof fn lemma_empty_input_insufficient()
    ensures
        parse_frame_control(Seq::empty()) == Err::<(FrameControl, nat), DecodeError>(
            DecodeError::InsufficientBytes,
        ),
        parse_command_frame_identifier(Seq::empty()) == Err::<
            (CommandFrameIdentifier, nat),
            DecodeError,
        >(DecodeError::InsufficientBytes),
        parse_source_route_subframe(Seq::empty()) == Err::<
            (SourceRouteSubframeView, nat),
            DecodeError,
        >(DecodeError::InsufficientBytes),
        parse_nwk_header(Seq::empty()) == Err::<(NwkHeaderView, nat), DecodeError>(
            DecodeError::InsufficientBytes,
        ),
        parse_nwk_frame(Seq::empty()) == Err::<(NwkFrameView, nat), DecodeError>(
            DecodeError::InsufficientBytes,
        ),
{
    reveal(parse_nwk_header);
}

} // verus!
