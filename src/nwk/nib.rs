//! NWK information base. See Section 3.5.
use vstd::prelude::*;

use crate::address::{IeeeAddress, ShortAddress};
use crate::security::frame::SecurityLevel;

verus! {

/// Zigbee device type.
#[derive(Debug, Clone, Copy, PartialEq, Eq, Structural)]
pub enum DeviceType {
    /// Zigbee coordinator
    Coordinator,
    /// Zigbee router
    Router,
    /// Zigbee end device
    EndDevice,
}

/// Route status. See Table 3-67.
#[derive(Debug, Clone, Copy, PartialEq, Eq, Structural)]
pub enum RouteStatus {
    Active,
    DiscoveryUnderway,
    DiscoveryFailed,
    Inactive,
    ValidationUnderway,
    Reserved,
}

/// Routing table entry. See Table 3-66.
///
/// The status byte holds the route status in bits [0:3) and four flags in
/// bits 3 to 6.
#[derive(Debug, Clone, Copy, PartialEq, Eq, Structural)]
pub struct NwkRoute {
    pub destination_address: ShortAddress,
    pub next_hop_address: ShortAddress,
    pub status: u8,
}

impl NwkRoute {
    /// The route status coded in bits [0:3); codes above 4 are reserved.
    pub open spec fn spec_status(self) -> RouteStatus {
        let s = self.status & 0b111u8;
        if s == 0 {
            RouteStatus::Active
        } else if s == 1 {
            RouteStatus::DiscoveryUnderway
        } else if s == 2 {
            RouteStatus::DiscoveryFailed
        } else if s == 3 {
            RouteStatus::Inactive
        } else if s == 4 {
            RouteStatus::ValidationUnderway
        } else {
            RouteStatus::Reserved
        }
    }

    /// The route status.
    pub fn status(&self) -> (r: RouteStatus)
        ensures
            r == self.spec_status(),
    {
        match self.status & 0b111u8 {
            0 => RouteStatus::Active,
            1 => RouteStatus::DiscoveryUnderway,
            2 => RouteStatus::DiscoveryFailed,
            3 => RouteStatus::Inactive,
            4 => RouteStatus::ValidationUnderway,
            _ => RouteStatus::Reserved,
        }
    }

    /// Bit 3: the destination does not store source routes.
    pub fn no_route_cache(&self) -> (r: bool)
        ensures
            r == ((self.status >> 3u8) & 1u8 != 0),
    {
        (self.status >> 3u8) & 1u8 != 0
    }

    /// Bit 4: the destination is a concentrator that issued a many-to-one
    /// route request.
    pub fn many_to_one(&self) -> (r: bool)
        ensures
            r == ((self.status >> 4u8) & 1u8 != 0),
    {
        (self.status >> 4u8) & 1u8 != 0
    }

    /// Bit 5: a route record command frame should be sent to the destination
    /// prior to the next data packet.
    pub fn route_record_required(&self) -> (r: bool)
        ensures
            r == ((self.status >> 5u8) & 1u8 != 0),
    {
        (self.status >> 5u8) & 1u8 != 0
    }

    /// Bit 6: the destination address is a Group ID.
    pub fn group_id(&self) -> (r: bool)
        ensures
            r == ((self.status >> 6u8) & 1u8 != 0),
    {
        (self.status >> 6u8) & 1u8 != 0
    }
}

/// Broadcast transaction record. See Table 3-70.
#[derive(Debug, Clone, Copy, PartialEq, Eq, Structural)]
pub struct TransactionRecord {
    pub source_address: ShortAddress,
    pub sequence_number: u8,
    pub expiration_time: u8,
}

/// NWK constants. See Section 3.5.1.
pub const NWKC_COORDINATOR_CAPABLE: bool = true;

/// Default security level; defined in the stack profile.
pub const NWKC_DEFAULT_SECURITY_LEVEL: u8 = 0x00;

pub const NWKC_MIN_HEADER_OVERHEAD: u8 = 0x08;

pub const NWKC_PROTOCOL_VERSION: u8 = 0x02;

pub const NWKC_WAIT_BEFORE_VALIDATION: u32 = 0x9c40;

pub const NWKC_ROUTE_DISCOVERY_TIME: u32 = 0x4c4b4;

pub const NWKC_MAX_BROADCAST_JITTER: u32 = 0x7d0;

pub const NWKC_INITIAL_RREQ_RETRIES: u8 = 0x03;

pub const NWKC_RREQ_RETRIES: u8 = 0x02;

pub const NWKC_RREQ_RETRY_INTERVAL: u32 = 0x1f02;

pub const NWKC_MIN_RREQ_JITTER: u32 = 0x3f;

pub const NWKC_MAX_RREQ_JITTER: u32 = 0xfa0;

pub const NWKC_MAC_FRAME_OVERHEAD: u8 = 0x0b;

#[verifier::external_type_specification]
#[verifier::external_body]
#[verifier::reject_recursive_types(K)]
#[verifier::reject_recursive_types(V)]
#[verifier::reject_recursive_types(S)]
pub struct ExIndexMap<K, V, S, const N: usize>(heapless::IndexMap<K, V, S, N>);

/// Relies on `heapless::Vec::new`, which only builds an empty vector.
pub assume_specification<T, const N: usize>[ heapless::Vec::<T, N>::new ]() -> heapless::Vec<
    T,
    N,
>;

/// Relies on `heapless::IndexMap::new`, which only builds an empty map.
pub assume_specification<K, V, S, const N: usize>[ heapless::IndexMap::<
    K,
    V,
    hash32::BuildHasherDefault<S>,
    N,
>::new ]() -> heapless::IndexMap<K, V, hash32::BuildHasherDefault<S>, N>;

/// Capability information of a device.
#[derive(Debug, Clone, Copy, Default, PartialEq, Eq, Structural)]
pub struct CapabilityInformation(pub u8);

/// Neighbor table entry. See Table 3-63.
#[derive(Debug, Clone, Copy, PartialEq, Eq, Structural)]
pub struct NwkNeighbor {
    pub extended_address: IeeeAddress,
    pub network_address: ShortAddress,
    pub device_type: DeviceType,
    pub rx_on_when_idle: bool,
    pub end_device_configuration: u16,
    pub timeout_counter: u32,
    pub device_timeout: u32,
    pub relationship: u8,
    pub transmit_failure: u8,
    pub lqi: u8,
    pub outgoing_cost: Option<u8>,
    pub age: Option<u8>,
    pub incoming_beacon_timestamp: Option<u8>,
    pub beacon_transmission_time: Option<u8>,
    pub keepalive_received: bool,
    pub mac_interface_index: u8,
    pub mac_unicast_bytes_transmitted: Option<u32>,
    pub mac_unicast_bytes_received: Option<u32>,
}

/// Route record table entry. See Table 3-59.
pub struct RouteRecord {
    pub network_address: ShortAddress,
    pub relay_count: u16,
    pub path: heapless::Vec<ShortAddress, 16>,
}

/// MAC interface table entry. See Table 3-61.
#[derive(Debug, Clone, Copy, PartialEq, Eq, Structural)]
pub struct MacInterface {}

/// Network Information Base. See Section 3.5.2.
pub(crate) struct Nib {
    pub(crate) sequence_number: u8,
    pub(crate) passive_ack_timeout: u32,
    pub(crate) max_broadcast_retries: u8,
    pub(crate) max_children: u8,
    pub(crate) max_depth: u8,
    pub(crate) max_routers: u8,
    pub(crate) neighbor_table: heapless::Vec<NwkNeighbor, 16>,
    pub(crate) network_broadcast_delivery_time: u32,
    pub(crate) report_constant_cost: u8,
    pub(crate) route_table: heapless::Vec<NwkRoute, 8>,
    pub(crate) sym_link: bool,
    pub(crate) capability_information: CapabilityInformation,
    pub(crate) addr_alloc: u8,
    pub(crate) use_tree_routing: bool,
    pub(crate) manager_addr: u16,
    pub(crate) max_source_route: u8,
    pub(crate) update_id: u8,
    pub(crate) transaction_persistence_time: u16,
    pub(crate) network_address: ShortAddress,
    pub(crate) stack_profile: u8,
    pub(crate) broadcast_transaction_table: heapless::Vec<TransactionRecord, 4>,
    pub(crate) group_idtable: heapless::Vec<u16, 4>,
    pub(crate) extended_panid: IeeeAddress,
    pub(crate) use_multicast: bool,
    pub(crate) route_record_table: heapless::Vec<RouteRecord, 8>,
    pub(crate) is_concentrator: bool,
    pub(crate) concentrator_radius: u8,
    pub(crate) concentrator_discovery_time: u8,
    pub(crate) security_level: SecurityLevel,
    pub(crate) security_material_set: u8,
    pub(crate) active_key_seq_number: u8,
    pub(crate) all_fresh: u8,
    pub(crate) link_status_period: u8,
    pub(crate) router_age_limit: u8,
    pub(crate) unique_addr: bool,
    pub(crate) address_map: heapless::FnvIndexMap<IeeeAddress, ShortAddress, 16>,
    pub(crate) time_stamp: bool,
    pub(crate) panid: ShortAddress,
    pub(crate) tx_total: u16,
    pub(crate) leave_request_allowed: bool,
    pub(crate) parent_information: u8,
    pub(crate) end_device_timeout_default: u8,
    pub(crate) leave_request_without_rejoin_allowed: bool,
    pub(crate) ieee_address: IeeeAddress,
    pub(crate) mac_interface_table: heapless::Vec<MacInterface, 1>,
}

impl Nib {
    /// The information base at start-up: the defaults of Section 3.5.2,
    /// every table empty, every other attribute zero or false.
    pub(crate) fn init() -> (r: Nib)
        ensures
            r.max_broadcast_retries == 0x03,
            r.use_tree_routing,
            r.max_source_route == 0x0c,
            r.transaction_persistence_time == 0x01f4,
            r.network_address == ShortAddress(0xffff),
            r.use_multicast,
            r.link_status_period == 0x0f,
            r.router_age_limit == 0x03,
            r.unique_addr,
            r.end_device_timeout_default == 0x08,
            r.leave_request_without_rejoin_allowed,
            r.sequence_number == 0,
            r.security_level == SecurityLevel::NoSecurity,
            r.manager_addr == 0,
            r.update_id == 0,
            !r.sym_link,
            !r.leave_request_allowed,
    {
        Nib {
            sequence_number: 0,
            passive_ack_timeout: 0,
            max_broadcast_retries: 0x03,
            max_children: 0,
            max_depth: 0,
            max_routers: 0,
            neighbor_table: heapless::Vec::new(),
            network_broadcast_delivery_time: 0,
            report_constant_cost: 0,
            route_table: heapless::Vec::new(),
            sym_link: false,
            capability_information: CapabilityInformation(0),
            addr_alloc: 0,
            use_tree_routing: true,
            manager_addr: 0,
            max_source_route: 0x0c,
            update_id: 0,
            transaction_persistence_time: 0x01f4,
            network_address: ShortAddress(0xffff),
            stack_profile: 0,
            broadcast_transaction_table: heapless::Vec::new(),
            group_idtable: heapless::Vec::new(),
            extended_panid: IeeeAddress(0),
            use_multicast: true,
            route_record_table: heapless::Vec::new(),
            is_concentrator: false,
            concentrator_radius: 0,
            concentrator_discovery_time: 0,
            security_level: SecurityLevel::NoSecurity,
            security_material_set: 0,
            active_key_seq_number: 0,
            all_fresh: 0,
            link_status_period: 0x0f,
            router_age_limit: 0x03,
            unique_addr: true,
            address_map: heapless::FnvIndexMap::new(),
            time_stamp: false,
            panid: ShortAddress(0),
            tx_total: 0,
            leave_request_allowed: false,
            parent_information: 0,
            end_device_timeout_default: 0x08,
            leave_request_without_rejoin_allowed: true,
            ieee_address: IeeeAddress(0),
            mac_interface_table: heapless::Vec::new(),
        }
    }
}

} // verus!
