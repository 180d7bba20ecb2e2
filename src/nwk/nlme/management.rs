//! Primitives of the network management service. See Section 3.2.2.
use vstd::prelude::*;

verus! {

/// 3.2.2.3 NLME-NETWORK-DISCOVERY.request
pub struct NlmeNetworkDiscoveryRequest {
    pub scan_channels_list_structure: [u8; 8],
    pub scan_duration: u8,
}

/// 3.2.2.4 - NLME-NETWORK-DISCOVERY.confirm
pub struct NlmeNetworkDiscoveryConfirm {
    pub status: NlmeNetworkDiscoveryStatus,
    pub network_count: u8,
    pub network_descriptor: NetworkDescriptor,
}

/// Status of a network discovery.
#[derive(Debug, Clone, Copy, PartialEq, Eq, Structural)]
pub enum NlmeNetworkDiscoveryStatus {
    Successful,
}

/// Network descriptor.
#[derive(Debug, Clone, Copy, PartialEq, Eq, Structural)]
pub struct NetworkDescriptor {
    /// 64-bit PAN identifier
    pub extended_pan_id: u64,
    /// 16-bit PAN identifier
    pub pan_id: u16,
    /// update ID from the NIB
    pub update_id: u8,
    /// current logical channel
    pub logical_channel: u8,
    /// A zigbee stack profile
    pub stack_profile: u8,
    /// version of the ZigBee protocol in use
    pub zigbee_version: u8,
    /// how often the MAC sub-layer beacon is to be transmitted
    pub beacon_order: u8,
    /// for beacon oriented networks
    pub superframe_order: u8,
    /// at least one router or coordinator on the network permits joining
    pub permit_joining: bool,
    /// the device accepts join requests from router-capable devices
    pub router_capacity: bool,
    /// the device accepts join requests from end devices
    pub end_device_capacity: bool,
}

/// 3.2.2.5 - NLME-NETWORK-FORMATION.request
pub struct NlmeNetworkFormationRequest {}

/// 3.2.2.6 - NLME-NETWORK-FORMATION.confirm
pub struct NlmeNetworkFormationConfirm {}

/// 3.2.2.7 - NLME-PERMIT-JOINING.request
pub struct NlmePermitJoiningRequest {}

/// 3.2.2.8 - NLME-PERMIT-JOINING.confirm
pub struct NlmePermitJoiningConfirm {}

/// 3.2.2.9 - NLME-START-ROUTER.request
pub struct NlmeStartRouterRequest {}

/// 3.2.2.10 - NLME-START-ROUTER.confirm
pub struct NlmeStartRouterConfirm {}

/// 3.2.2.11 - NLME-ED-SCAN.request
pub struct NlmeEdScanRequest {}

/// 3.2.2.12 - NLME-ED-SCAN.confirm
pub struct NlmeEdScanConfirm {}

/// 3.2.2.13 - NLME-JOIN.request
pub struct NlmeJoinRequest {
    pub extended_pan_id: u64,
    pub rejoin_network: u8,
    pub scan_duration: u8,
    pub security_enabled: bool,
}

/// 3.2.2.14 - NLME-JOIN.indication
pub struct NlmeJoinIndication {
    pub network_address: u16,
    pub extended_address: u64,
    pub rejoin_network: u8,
    pub secure_rejoin: bool,
}

/// 3.2.2.15 - NLME-JOIN.confirm
pub struct NlmeJoinConfirm {
    pub status: NlmeJoinStatus,
    pub network_address: u16,
    pub extended_pan_id: u64,
    pub enhanced_beacon_type: bool,
    pub mac_interface_index: u8,
}

/// Status of a join.
#[derive(Debug, Clone, Copy, PartialEq, Eq, Structural)]
pub enum NlmeJoinStatus {
    Success,
    InvalidRequest,
    NotPermitted,
    NoNetworks,
}

/// 3.2.2.16 - NLME-DIRECT-JOIN.request
pub struct NlmeDirectJoinRequest {}

/// 3.2.2.17 - NLME-DIRECT-JOIN.confirm
pub struct NlmeDirectJoinConfirm {}

/// 3.2.2.18 - NLME-LEAVE.request
pub struct NlmeLeaveRequest {}

/// 3.2.2.19 - NLME-LEAVE.indication
pub struct NlmeLeaveIndication {}

/// 3.2.2.20 - NLME-LEAVE.confirm
pub struct NlmeLeaveConfirm {}

/// 3.2.2.21 - NLME-RESET.request
pub struct NlmeResetRequest {}

/// 3.2.2.22 - NLME-RESET.confirm
pub struct NlmeResetConfirm {}

} // verus!
