//! 2.3.2.3 Node Descriptor.
//!
//! The node descriptor contains information about the capabilities of the
//! ZigBee node and is mandatory for each node.
use vstd::prelude::*;

use crate::bitfield::{bit, set_names_bit, word_of_flags, BitFlag};
use crate::buffers::{node_descriptor_as_slice, node_descriptor_bytes, node_descriptor_from_slice};
use crate::codec::{lemma_u16_round_trip, u16_from_le, u16_le_bytes};

verus! {

/// The frequency bands supported by the node's radios.
/// See Section 2.3.2.3.5.
#[derive(Debug, Clone, Copy, PartialEq, Eq, Structural)]
pub struct FrequencyBands(pub u8);

/// A frequency band. Bit 1 is reserved.
#[derive(Debug, Clone, Copy, PartialEq, Eq, Hash, Structural)]
pub enum FrequencyBandFlag {
    /// 868 - 868.6 MHz
    Low,
    /// 902 - 928 MHz
    Mid,
    /// 2400 - 2483.5 MHz
    High,
    /// European FSK sub-GHz bands: (863-876MHz and 915-921MHz)
    EuropeanFSK,
}

impl BitFlag for FrequencyBandFlag {
    open spec fn spec_position(&self) -> u16 {
        match self {
            FrequencyBandFlag::Low => 0,
            FrequencyBandFlag::Mid => 2,
            FrequencyBandFlag::High => 3,
            FrequencyBandFlag::EuropeanFSK => 4,
        }
    }

    fn position(&self) -> (r: u16) {
        match self {
            FrequencyBandFlag::Low => 0,
            FrequencyBandFlag::Mid => 2,
            FrequencyBandFlag::High => 3,
            FrequencyBandFlag::EuropeanFSK => 4,
        }
    }
}

/// The bands held by a set of frequency band flags.
pub uninterp spec fn frequency_band_flag_set(s: heapless::FnvIndexSet<FrequencyBandFlag, 4>) -> Set<
    FrequencyBandFlag,
>;

/// Relies on `heapless::IndexSet::iter`: it yields each member of the set.
#[verifier::external_body]
fn frequency_band_flag_list(s: &heapless::FnvIndexSet<FrequencyBandFlag, 4>) -> (r: Vec<
    FrequencyBandFlag,
>)
    ensures
        r@.to_set() == frequency_band_flag_set(*s),
{
    s.iter().copied().collect()
}

impl FrequencyBands {
    /// Whether the bit of `flag` is set.
    pub open spec fn spec_is_set(self, flag: FrequencyBandFlag) -> bool {
        bit(self.0 as u16, flag.spec_position())
    }

    /// The word with the bit of each band in `flags` set and every other bit
    /// clear.
    pub fn new(flags: heapless::FnvIndexSet<FrequencyBandFlag, 4>) -> (r: FrequencyBands)
        ensures
            forall|b: u16|
                b < 16 ==> (#[trigger] bit(r.0 as u16, b) <==> set_names_bit(
                    frequency_band_flag_set(flags),
                    b,
                )),
            forall|f: FrequencyBandFlag| #[trigger]
                r.spec_is_set(f) <==> frequency_band_flag_set(flags).contains(f),
    {
        let list = frequency_band_flag_list(&flags);
        let value = word_of_flags(&list, 8, Ghost(frequency_band_flag_set(flags)));
        FrequencyBands(value as u8)
    }

    /// Whether the bit of `frequency_band_flag` is set.
    pub fn is_set(&self, frequency_band_flag: FrequencyBandFlag) -> (r: bool)
        ensures
            r == self.spec_is_set(frequency_band_flag),
    {
        (self.0 as u16) & (1u16 << frequency_band_flag.position()) != 0
    }
}

/// The node's MAC capabilities, as required by the IEEE 802.15.4 MAC
/// sub-layer. See Section 2.3.2.3.6.
#[derive(Debug, Clone, Copy, PartialEq, Eq, Structural)]
pub struct MacCapabilities(pub u8);

/// A MAC capability. Bits 4 and 5 are reserved.
#[derive(Debug, Clone, Copy, PartialEq, Eq, Hash, Structural)]
pub enum MacCapabilityFlag {
    /// Set if this node is capable of becoming a PAN coordinator.
    AlternatePanCoordinator,
    /// Set if this node is a full function device (FFD), clear for a reduced
    /// function device (RFD).
    DeviceType,
    /// Set if the current power source is mains power.
    PowerSource,
    /// Set if the device does not disable its receiver to conserve power
    /// during idle periods.
    ReceiverOnWhenIdle,
    /// Set if the device is capable of sending and receiving secured frames.
    SecurityCapability,
    /// The allocate address sub-field.
    AllocateAddress,
}

impl BitFlag for MacCapabilityFlag {
    open spec fn spec_position(&self) -> u16 {
        match self {
            MacCapabilityFlag::AlternatePanCoordinator => 0,
            MacCapabilityFlag::DeviceType => 1,
            MacCapabilityFlag::PowerSource => 2,
            MacCapabilityFlag::ReceiverOnWhenIdle => 3,
            MacCapabilityFlag::SecurityCapability => 6,
            MacCapabilityFlag::AllocateAddress => 7,
        }
    }

    fn position(&self) -> (r: u16) {
        match self {
            MacCapabilityFlag::AlternatePanCoordinator => 0,
            MacCapabilityFlag::DeviceType => 1,
            MacCapabilityFlag::PowerSource => 2,
            MacCapabilityFlag::ReceiverOnWhenIdle => 3,
            MacCapabilityFlag::SecurityCapability => 6,
            MacCapabilityFlag::AllocateAddress => 7,
        }
    }
}

/// The capabilities held by a set of MAC capability flags.
pub uninterp spec fn mac_capability_flag_set(s: heapless::FnvIndexSet<MacCapabilityFlag, 8>) -> Set<
    MacCapabilityFlag,
>;

/// Relies on `heapless::IndexSet::iter`: it yields each member of the set.
#[verifier::external_body]
fn mac_capability_flag_list(s: &heapless::FnvIndexSet<MacCapabilityFlag, 8>) -> (r: Vec<
    MacCapabilityFlag,
>)
    ensures
        r@.to_set() == mac_capability_flag_set(*s),
{
    s.iter().copied().collect()
}

impl MacCapabilities {
    /// Whether the bit of `flag` is set.
    pub open spec fn spec_is_set(self, flag: MacCapabilityFlag) -> bool {
        bit(self.0 as u16, flag.spec_position())
    }

    /// The word with the bit of each capability in `capability_flags` set and
    /// every other bit clear.
    pub fn new(capability_flags: heapless::FnvIndexSet<MacCapabilityFlag, 8>) -> (r:
        MacCapabilities)
        ensures
            forall|b: u16|
                b < 16 ==> (#[trigger] bit(r.0 as u16, b) <==> set_names_bit(
                    mac_capability_flag_set(capability_flags),
                    b,
                )),
            forall|f: MacCapabilityFlag| #[trigger]
                r.spec_is_set(f) <==> mac_capability_flag_set(capability_flags).contains(f),
    {
        let list = mac_capability_flag_list(&capability_flags);
        let value = word_of_flags(&list, 8, Ghost(mac_capability_flag_set(capability_flags)));
        MacCapabilities(value as u8)
    }

    /// Whether the bit of `mac_capability_flag` is set.
    pub fn is_set(&self, mac_capability_flag: MacCapabilityFlag) -> (r: bool)
        ensures
            r == self.spec_is_set(mac_capability_flag),
    {
        (self.0 as u16) & (1u16 << mac_capability_flag.position()) != 0
    }
}

/// The system server capabilities of the node, and in bits [9:16) the
/// stack compliance revision. See Section 2.3.2.3.10.
#[derive(Debug, Clone, Copy, PartialEq, Eq, Structural)]
pub struct ServerMask(pub u16);

/// A server capability. Bits 7 and 8 are reserved.
#[derive(Debug, Clone, Copy, PartialEq, Eq, Hash, Structural)]
pub enum ServerMaskFlag {
    PrimaryTrustCenter,
    BackupTrustCenter,
    PrimaryBindingTableCache,
    BackupBindingTableCache,
    PrimaryDiscoveryCache,
    BackupDiscoveryCache,
    NetworkManager,
}

impl BitFlag for ServerMaskFlag {
    open spec fn spec_position(&self) -> u16 {
        match self {
            ServerMaskFlag::PrimaryTrustCenter => 0,
            ServerMaskFlag::BackupTrustCenter => 1,
            ServerMaskFlag::PrimaryBindingTableCache => 2,
            ServerMaskFlag::BackupBindingTableCache => 3,
            ServerMaskFlag::PrimaryDiscoveryCache => 4,
            ServerMaskFlag::BackupDiscoveryCache => 5,
            ServerMaskFlag::NetworkManager => 6,
        }
    }

    fn position(&self) -> (r: u16) {
        match self {
            ServerMaskFlag::PrimaryTrustCenter => 0,
            ServerMaskFlag::BackupTrustCenter => 1,
            ServerMaskFlag::PrimaryBindingTableCache => 2,
            ServerMaskFlag::BackupBindingTableCache => 3,
            ServerMaskFlag::PrimaryDiscoveryCache => 4,
            ServerMaskFlag::BackupDiscoveryCache => 5,
            ServerMaskFlag::NetworkManager => 6,
        }
    }
}

/// The capabilities held by a set of server mask flags.
pub uninterp spec fn server_mask_flag_set(s: heapless::FnvIndexSet<ServerMaskFlag, 8>) -> Set<
    ServerMaskFlag,
>;

/// Relies on `heapless::IndexSet::iter`: it yields each member of the set.
#[verifier::external_body]
fn server_mask_flag_list(s: &heapless::FnvIndexSet<ServerMaskFlag, 8>) -> (r: Vec<ServerMaskFlag>)
    ensures
        r@.to_set() == server_mask_flag_set(*s),
{
    s.iter().copied().collect()
}

proof fn lemma_server_mask_bits(flags: u16, revision: u8, b: u16)
    by (bit_vector)
    requires
        flags < 128,
        b < 9,
    ensures
        bit(flags | ((revision as u16) << 9u16), b) == bit(flags, b),
        (flags | ((revision as u16) << 9u16)) >> 9u16 == (revision as u16) & 0x7fu16,
        revision < 128 ==> (((flags | ((revision as u16) << 9u16)) >> 9u16) as u8) == revision,
{
}

impl ServerMask {
    /// Whether the bit of `flag` is set.
    pub open spec fn spec_is_set(self, flag: ServerMaskFlag) -> bool {
        bit(self.0, flag.spec_position())
    }

    /// Bits [9:16): the stack compliance revision.
    pub open spec fn spec_stack_compliance_revision(self) -> u8 {
        (self.0 >> 9u16) as u8
    }

    /// The mask with the bit of each capability in `server_mask_flags` set,
    /// bits 7 and 8 clear, and the low seven bits of
    /// `stack_compliance_revision` in bits [9:16).
    pub fn new(
        server_mask_flags: heapless::FnvIndexSet<ServerMaskFlag, 8>,
        stack_compliance_revision: u8,
    ) -> (r: ServerMask)
        ensures
            forall|b: u16|
                b < 9 ==> (#[trigger] bit(r.0, b) <==> set_names_bit(
                    server_mask_flag_set(server_mask_flags),
                    b,
                )),
            forall|f: ServerMaskFlag| #[trigger]
                r.spec_is_set(f) <==> server_mask_flag_set(server_mask_flags).contains(f),
            r.0 >> 9u16 == (stack_compliance_revision as u16) & 0x7fu16,
            stack_compliance_revision < 128 ==> r.spec_stack_compliance_revision()
                == stack_compliance_revision,
    {
        let list = server_mask_flag_list(&server_mask_flags);
        let value = word_of_flags(&list, 7, Ghost(server_mask_flag_set(server_mask_flags)));
        let r = ServerMask(value | ((stack_compliance_revision as u16) << 9u16));
        proof {
            lemma_server_mask_bits(value, stack_compliance_revision, 0);
            assert forall|b: u16| b < 9 implies #[trigger] bit(r.0, b) == bit(value, b) by {
                lemma_server_mask_bits(value, stack_compliance_revision, b);
            }
            assert forall|f: ServerMaskFlag| #[trigger]
                r.spec_is_set(f) <==> server_mask_flag_set(server_mask_flags).contains(f) by {
                assert(bit(r.0, f.spec_position()) == bit(value, f.spec_position()));
            }
        }
        r
    }

    /// Whether the bit of `server_mask_flag` is set.
    pub fn is_set(&self, server_mask_flag: ServerMaskFlag) -> (r: bool)
        ensures
            r == self.spec_is_set(server_mask_flag),
    {
        self.0 & (1u16 << server_mask_flag.position()) != 0
    }

    /// The stack compliance revision.
    pub fn get_stack_compliance_revision(&self) -> (r: u8)
        ensures
            r == self.spec_stack_compliance_revision(),
    {
        (self.0 >> 9u16) as u8
    }
}

/// The descriptor capabilities of the node. See Section 2.3.2.3.12.
#[derive(Debug, Clone, Copy, PartialEq, Eq, Structural)]
pub struct DescriptorCapabilities(pub u8);

/// A descriptor capability. Bits 2 to 7 are reserved.
#[derive(Debug, Clone, Copy, PartialEq, Eq, Hash, Structural)]
pub enum DescriptorCapabilityFlag {
    ExtendedActiveEndpontListAvailable,
    ExtendedSimpleDescriptorListAvailable,
}

impl BitFlag for DescriptorCapabilityFlag {
    open spec fn spec_position(&self) -> u16 {
        match self {
            DescriptorCapabilityFlag::ExtendedActiveEndpontListAvailable => 0,
            DescriptorCapabilityFlag::ExtendedSimpleDescriptorListAvailable => 1,
        }
    }

    fn position(&self) -> (r: u16) {
        match self {
            DescriptorCapabilityFlag::ExtendedActiveEndpontListAvailable => 0,
            DescriptorCapabilityFlag::ExtendedSimpleDescriptorListAvailable => 1,
        }
    }
}

/// The capabilities held by a set of descriptor capability flags.
pub uninterp spec fn descriptor_capability_flag_set(
    s: heapless::FnvIndexSet<DescriptorCapabilityFlag, 2>,
) -> Set<DescriptorCapabilityFlag>;

/// Relies on `heapless::IndexSet::iter`: it yields each member of the set.
#[verifier::external_body]
fn descriptor_capability_flag_list(s: &heapless::FnvIndexSet<DescriptorCapabilityFlag, 2>) -> (r:
    Vec<DescriptorCapabilityFlag>)
    ensures
        r@.to_set() == descriptor_capability_flag_set(*s),
{
    s.iter().copied().collect()
}

impl DescriptorCapabilities {
    /// Whether the bit of `flag` is set.
    pub open spec fn spec_is_set(self, flag: DescriptorCapabilityFlag) -> bool {
        bit(self.0 as u16, flag.spec_position())
    }

    /// The word with the bit of each capability in
    /// `descriptor_capability_flags` set and every other bit clear.
    pub fn new(descriptor_capability_flags: heapless::FnvIndexSet<DescriptorCapabilityFlag, 2>) -> (r:
        DescriptorCapabilities)
        ensures
            forall|b: u16|
                b < 16 ==> (#[trigger] bit(r.0 as u16, b) <==> set_names_bit(
                    descriptor_capability_flag_set(descriptor_capability_flags),
                    b,
                )),
            forall|f: DescriptorCapabilityFlag| #[trigger]
                r.spec_is_set(f) <==> descriptor_capability_flag_set(
                    descriptor_capability_flags,
                ).contains(f),
    {
        let list = descriptor_capability_flag_list(&descriptor_capability_flags);
        let value = word_of_flags(
            &list,
            8,
            Ghost(descriptor_capability_flag_set(descriptor_capability_flags)),
        );
        DescriptorCapabilities(value as u8)
    }

    /// Whether the bit of `descriptor_capability_flag` is set.
    pub fn is_set(&self, descriptor_capability_flag: DescriptorCapabilityFlag) -> (r: bool)
        ensures
            r == self.spec_is_set(descriptor_capability_flag),
    {
        (self.0 as u16) & (1u16 << descriptor_capability_flag.position()) != 0
    }
}

/// The device type of the node. See Section 2.3.2.3.1.
///
/// The three-bit codes 0b011 to 0b111 are reserved and read as `Reserved`.
#[derive(Debug, Clone, Copy, PartialEq, Eq, Structural, Default)]
pub enum LogicalType {
    #[default]
    ZigBeeCoordinator,
    ZigBeeRouter,
    ZigBeeEndDevice,
    Reserved,
}

impl LogicalType {
    /// The logical type coded by the three-bit value `value`.
    pub open spec fn spec_from_bits(value: u8) -> LogicalType {
        if value == 0 {
            LogicalType::ZigBeeCoordinator
        } else if value == 1 {
            LogicalType::ZigBeeRouter
        } else if value == 2 {
            LogicalType::ZigBeeEndDevice
        } else {
            LogicalType::Reserved
        }
    }

    /// The three-bit code of this logical type.
    pub open spec fn spec_to_bits(self) -> u8 {
        match self {
            LogicalType::ZigBeeCoordinator => 0,
            LogicalType::ZigBeeRouter => 1,
            LogicalType::ZigBeeEndDevice => 2,
            LogicalType::Reserved => 3,
        }
    }

    /// The three-bit code of this logical type.
    pub fn to_bits(&self) -> (r: u8)
        ensures
            r == self.spec_to_bits(),
    {
        match self {
            LogicalType::ZigBeeCoordinator => 0,
            LogicalType::ZigBeeRouter => 1,
            LogicalType::ZigBeeEndDevice => 2,
            LogicalType::Reserved => 3,
        }
    }
}

impl From<u8> for LogicalType {
    fn from(value: u8) -> LogicalType {
        match value {
            0b000 => LogicalType::ZigBeeCoordinator,
            0b001 => LogicalType::ZigBeeRouter,
            0b010 => LogicalType::ZigBeeEndDevice,
            _ => LogicalType::Reserved,
        }
    }
}

impl vstd::std_specs::convert::FromSpecImpl<u8> for LogicalType {
    open spec fn obeys_from_spec() -> bool {
        true
    }

    open spec fn from_spec(v: u8) -> LogicalType {
        LogicalType::spec_from_bits(v)
    }
}

/// Byte 0 of a node descriptor: logical type in bits [5:8), complex
/// descriptor availability in bit 4, user descriptor availability in bit 3.
pub open spec fn node_descriptor_first_byte(
    logical_type: LogicalType,
    complex_descriptor_available: bool,
    user_descriptor_available: bool,
) -> u8 {
    (logical_type.spec_to_bits() << 5u8) | ((if complex_descriptor_available {
        1u8
    } else {
        0u8
    }) << 4u8) | ((if user_descriptor_available {
        1u8
    } else {
        0u8
    }) << 3u8)
}

/// The thirteen bytes of a node descriptor; multi-byte fields are
/// little-endian.
pub open spec fn node_descriptor_layout(
    logical_type: LogicalType,
    complex_descriptor_available: bool,
    user_descriptor_available: bool,
    frequency_bands: FrequencyBands,
    mac_capabilities: MacCapabilities,
    manufacturer_code: u16,
    maximum_buffer_size: u8,
    maximum_incoming_transfer_size: u16,
    server_mask: ServerMask,
    maximum_outgoing_transfer_size: u16,
    descriptor_capabilities: DescriptorCapabilities,
) -> Seq<u8> {
    seq![
        node_descriptor_first_byte(
            logical_type,
            complex_descriptor_available,
            user_descriptor_available,
        ),
        frequency_bands.0,
        mac_capabilities.0,
    ] + u16_le_bytes(manufacturer_code) + seq![maximum_buffer_size] + u16_le_bytes(
        maximum_incoming_transfer_size,
    ) + u16_le_bytes(server_mask.0) + u16_le_bytes(maximum_outgoing_transfer_size) + seq![
        descriptor_capabilities.0,
    ]
}

proof fn lemma_first_byte_fields(t: u8, c: u8, u: u8)
    by (bit_vector)
    requires
        t < 8,
        c < 2,
        u < 2,
    ensures
        ((((t << 5u8) | (c << 4u8) | (u << 3u8)) >> 5u8) & 0b111u8) == t,
        ((((t << 5u8) | (c << 4u8) | (u << 3u8)) >> 4u8) & 1u8) == c,
        ((((t << 5u8) | (c << 4u8) | (u << 3u8)) >> 3u8) & 1u8) == u,
{
}

/// Node descriptor, held as its thirteen wire bytes.
pub struct NodeDescriptor(heapless::Vec<u8, 13>);

impl View for NodeDescriptor {
    type V = Seq<u8>;

    closed spec fn view(&self) -> Seq<u8> {
        node_descriptor_bytes(self.0)
    }
}

impl NodeDescriptor {
    #[verifier::type_invariant]
    spec fn holds_all_fields(self) -> bool {
        node_descriptor_bytes(self.0).len() == 13
    }

    /// The logical type: bits [5:8) of byte 0.
    pub open spec fn spec_logical_type(self) -> LogicalType {
        LogicalType::spec_from_bits((self@[0] >> 5u8) & 0b111u8)
    }

    /// Bit 4 of byte 0.
    pub open spec fn spec_complex_descriptor_available(self) -> bool {
        (self@[0] >> 4u8) & 1u8 != 0
    }

    /// Bit 3 of byte 0.
    pub open spec fn spec_user_descriptor_available(self) -> bool {
        (self@[0] >> 3u8) & 1u8 != 0
    }

    /// Bits [0:5) of byte 1.
    pub open spec fn spec_frequency_bands(self) -> FrequencyBands {
        FrequencyBands(self@[1] & 0b0001_1111u8)
    }

    /// Byte 2.
    pub open spec fn spec_mac_capabilities(self) -> MacCapabilities {
        MacCapabilities(self@[2])
    }

    /// Bytes 3 and 4.
    pub open spec fn spec_manufacturer_code(self) -> u16 {
        u16_from_le(self@.skip(3))
    }

    /// Byte 5.
    pub open spec fn spec_maximum_buffer_size(self) -> u8 {
        self@[5]
    }

    /// Bytes 6 and 7.
    pub open spec fn spec_maximum_incoming_transfer_size(self) -> u16 {
        u16_from_le(self@.skip(6))
    }

    /// Bytes 8 and 9.
    pub open spec fn spec_server_mask(self) -> ServerMask {
        ServerMask(u16_from_le(self@.skip(8)))
    }

    /// Bytes 10 and 11.
    pub open spec fn spec_maximum_outgoing_transfer_size(self) -> u16 {
        u16_from_le(self@.skip(10))
    }

    /// Byte 12.
    pub open spec fn spec_descriptor_capabilities(self) -> DescriptorCapabilities {
        DescriptorCapabilities(self@[12])
    }

    /// Lays the fields out in their thirteen bytes. Reading a field back gives
    /// the value it was built from, the frequency bands restricted to their
    /// five defined bits.
    pub fn new(
        logical_type: LogicalType,
        complex_descriptor_available: bool,
        user_descriptor_available: bool,
        frequency_bands: FrequencyBands,
        mac_capabilities: MacCapabilities,
        manufacturer_code: u16,
        maximum_buffer_size: u8,
        maximum_incoming_transfer_size: u16,
        server_mask: ServerMask,
        maximum_outgoing_transfer_size: u16,
        descriptor_capabilities: DescriptorCapabilities,
    ) -> (r: NodeDescriptor)
        ensures
            r@ == node_descriptor_layout(
                logical_type,
                complex_descriptor_available,
                user_descriptor_available,
                frequency_bands,
                mac_capabilities,
                manufacturer_code,
                maximum_buffer_size,
                maximum_incoming_transfer_size,
                server_mask,
                maximum_outgoing_transfer_size,
                descriptor_capabilities,
            ),
            r.spec_logical_type() == logical_type,
            r.spec_complex_descriptor_available() == complex_descriptor_available,
            r.spec_user_descriptor_available() == user_descriptor_available,
            r.spec_frequency_bands() == FrequencyBands(frequency_bands.0 & 0b0001_1111u8),
            r.spec_mac_capabilities() == mac_capabilities,
            r.spec_manufacturer_code() == manufacturer_code,
            r.spec_maximum_buffer_size() == maximum_buffer_size,
            r.spec_maximum_incoming_transfer_size() == maximum_incoming_transfer_size,
            r.spec_server_mask() == server_mask,
            r.spec_maximum_outgoing_transfer_size() == maximum_outgoing_transfer_size,
            r.spec_descriptor_capabilities() == descriptor_capabilities,
    {
        let complex: u8 = if complex_descriptor_available {
            1
        } else {
            0
        };
        let user: u8 = if user_descriptor_available {
            1
        } else {
            0
        };
        let byte_0: u8 = (logical_type.to_bits() << 5u8) | (complex << 4u8) | (user << 3u8);
        let mut bytes: Vec<u8> = Vec::new();
        bytes.push(byte_0);
        bytes.push(frequency_bands.0);
        bytes.push(mac_capabilities.0);
        bytes.push(manufacturer_code as u8);
        bytes.push((manufacturer_code >> 8u16) as u8);
        bytes.push(maximum_buffer_size);
        bytes.push(maximum_incoming_transfer_size as u8);
        bytes.push((maximum_incoming_transfer_size >> 8u16) as u8);
        bytes.push(server_mask.0 as u8);
        bytes.push((server_mask.0 >> 8u16) as u8);
        bytes.push(maximum_outgoing_transfer_size as u8);
        bytes.push((maximum_outgoing_transfer_size >> 8u16) as u8);
        bytes.push(descriptor_capabilities.0);
        let ghost layout = node_descriptor_layout(
            logical_type,
            complex_descriptor_available,
            user_descriptor_available,
            frequency_bands,
            mac_capabilities,
            manufacturer_code,
            maximum_buffer_size,
            maximum_incoming_transfer_size,
            server_mask,
            maximum_outgoing_transfer_size,
            descriptor_capabilities,
        );
        assert(bytes@ =~= layout);
        let r = NodeDescriptor(node_descriptor_from_slice(bytes.as_slice()));
        proof {
            lemma_first_byte_fields(logical_type.spec_to_bits(), complex, user);
            lemma_u16_round_trip(manufacturer_code, layout.skip(5));
            assert(layout.skip(3) =~= u16_le_bytes(manufacturer_code) + layout.skip(5));
            lemma_u16_round_trip(maximum_incoming_transfer_size, layout.skip(8));
            assert(layout.skip(6) =~= u16_le_bytes(maximum_incoming_transfer_size) + layout.skip(8));
            lemma_u16_round_trip(server_mask.0, layout.skip(10));
            assert(layout.skip(8) =~= u16_le_bytes(server_mask.0) + layout.skip(10));
            lemma_u16_round_trip(maximum_outgoing_transfer_size, layout.skip(12));
            assert(layout.skip(10) =~= u16_le_bytes(maximum_outgoing_transfer_size) + layout.skip(12));
        }
        r
    }

    /// See Section 2.3.2.3.1.
    pub fn logical_type(&self) -> (r: LogicalType)
        ensures
            r == self.spec_logical_type(),
    {
        proof {
            use_type_invariant(self);
        }
        let bytes = node_descriptor_as_slice(&self.0);
        let logical_type: u8 = (bytes[0] >> 5u8) & 0b111u8;
        logical_type.into()
    }

    /// See Section 2.3.2.3.2.
    pub fn complex_descriptor_available(&self) -> (r: bool)
        ensures
            r == self.spec_complex_descriptor_available(),
    {
        proof {
            use_type_invariant(self);
        }
        let bytes = node_descriptor_as_slice(&self.0);
        ((bytes[0] >> 4u8) & 1u8) != 0
    }

    /// See Section 2.3.2.3.3.
    pub fn user_descriptor_available(&self) -> (r: bool)
        ensures
            r == self.spec_user_descriptor_available(),
    {
        proof {
            use_type_invariant(self);
        }
        let bytes = node_descriptor_as_slice(&self.0);
        ((bytes[0] >> 3u8) & 1u8) != 0
    }

    /// See Section 2.3.2.3.5.
    pub fn frequency_bands(&self) -> (r: FrequencyBands)
        ensures
            r == self.spec_frequency_bands(),
    {
        proof {
            use_type_invariant(self);
        }
        let bytes = node_descriptor_as_slice(&self.0);
        FrequencyBands(bytes[1] & 0b0001_1111u8)
    }

    /// See Section 2.3.2.3.6.
    pub fn mac_capabilities(&self) -> (r: MacCapabilities)
        ensures
            r == self.spec_mac_capabilities(),
    {
        proof {
            use_type_invariant(self);
        }
        let bytes = node_descriptor_as_slice(&self.0);
        MacCapabilities(bytes[2])
    }

    /// See Section 2.3.2.3.7.
    pub fn manufacturer_code(&self) -> (r: u16)
        ensures
            r == self.spec_manufacturer_code(),
    {
        proof {
            use_type_invariant(self);
        }
        let bytes = node_descriptor_as_slice(&self.0);
        (bytes[3] as u16) | ((bytes[4] as u16) << 8u16)
    }

    /// See Section 2.3.2.3.8.
    pub fn maximum_buffer_size(&self) -> (r: u8)
        ensures
            r == self.spec_maximum_buffer_size(),
    {
        proof {
            use_type_invariant(self);
        }
        let bytes = node_descriptor_as_slice(&self.0);
        bytes[5]
    }

    /// See Section 2.3.2.3.9.
    pub fn maximum_incoming_transfer_size(&self) -> (r: u16)
        ensures
            r == self.spec_maximum_incoming_transfer_size(),
    {
        proof {
            use_type_invariant(self);
        }
        let bytes = node_descriptor_as_slice(&self.0);
        (bytes[6] as u16) | ((bytes[7] as u16) << 8u16)
    }

    /// See Section 2.3.2.3.10.
    pub fn server_mask(&self) -> (r: ServerMask)
        ensures
            r == self.spec_server_mask(),
    {
        proof {
            use_type_invariant(self);
        }
        let bytes = node_descriptor_as_slice(&self.0);
        ServerMask((bytes[8] as u16) | ((bytes[9] as u16) << 8u16))
    }

    /// See Section 2.3.2.3.11.
    pub fn maximum_outgoing_transfer_size(&self) -> (r: u16)
        ensures
            r == self.spec_maximum_outgoing_transfer_size(),
    {
        proof {
            use_type_invariant(self);
        }
        let bytes = node_descriptor_as_slice(&self.0);
        (bytes[10] as u16) | ((bytes[11] as u16) << 8u16)
    }

    /// See Section 2.3.2.3.12.
    pub fn descriptor_capabilities(&self) -> (r: DescriptorCapabilities)
        ensures
            r == self.spec_descriptor_capabilities(),
    {
        proof {
            use_type_invariant(self);
        }
        let bytes = node_descriptor_as_slice(&self.0);
        DescriptorCapabilities(bytes[12])
    }
}

} // verus!
