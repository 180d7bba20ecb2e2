//! Device and service discovery client services. See Section 2.4.3.1.
use vstd::prelude::*;

use crate::address::{IeeeAddress, NwkAddress};
use crate::zaf::node_descriptor::{MacCapabilities, NodeDescriptor, ServerMask};

verus! {

/// 2.4.3.1.1 NWK_addr_req
pub struct NWKAddrReq {
    /// The IEEE address to be matched by the Remote Device
    pub ieee_address: IeeeAddress,
    /// 0x00 single device response, 0x01 extended response, others reserved
    pub request_type: u8,
    /// For an extended response, the starting index into the list of
    /// associated devices
    pub start_index: u8,
}

/// 2.4.3.1.2 IEEE_addr_req
pub struct IeeeAddrReq {
    /// NWK address that is used for IEEE address mapping.
    pub nwk_addr_of_interest: NwkAddress,
    /// 0x00 single device response, 0x01 extended response, others reserved
    pub request_type: u8,
    /// For an extended response, the starting index into the list of
    /// associated devices
    pub start_index: u8,
}

/// 2.4.3.1.3 Node_Desc_req
pub struct NodeDescReq {
    /// NWK address for the request
    pub nwk_addr_of_interest: NwkAddress,
}

/// 2.4.3.1.4 Power_Desc_req
pub struct PowerDescReq {
    /// NWK address for the request
    pub nwk_addr_of_interest: NwkAddress,
}

/// 2.4.3.1.5 Simple_Desc_req
pub struct SimpleDescReq {
    /// NWK address for the request
    pub nwk_addr_of_interest: NwkAddress,
    /// The endpoint on the destination
    pub endpoint: u8,
}

/// 2.4.3.1.6 Active_EP_req
pub struct ActivePeReq {
    /// NWK address for the request
    pub nwk_addr_of_interest: NwkAddress,
}

/// 2.4.3.1.7 Match_Desc_req
pub struct MatchDescReq {
    /// NWK address for the request
    pub nwk_addr_of_interest: NwkAddress,
    /// Profile ID to be matched at the destination.
    pub profile_id: u16,
    /// The number of input clusters in the input cluster list.
    pub num_in_clusters: u8,
    /// Input cluster identifiers to be matched against the output clusters
    /// of the remote device.
    pub in_cluster_list: heapless::Vec<u16, 131070>,
    /// The number of output clusters in the output cluster list.
    pub num_out_clusters: u8,
    /// Output cluster identifiers to be matched against the input clusters
    /// of the remote device.
    pub out_cluster_list: heapless::Vec<u16, 131070>,
}

/// 2.4.3.1.8 Complex_Desc_req
pub struct ComplexDescReq {
    /// NWK address for the request
    pub nwk_addr_of_interest: NwkAddress,
}

/// 2.4.3.1.9 User_Desc_req
pub struct UserDescReq {
    /// NWK address for the request
    pub nwk_addr_of_interest: NwkAddress,
}

/// 2.4.3.1.11 Device_annce
pub struct DeviceAnnce {
    /// NWK address for the Local Device
    pub nwk_addr: NwkAddress,
    /// IEEE address for the Local Device
    pub ieee_addr: IeeeAddress,
    /// Capability of the local device
    pub capability: MacCapabilities,
}

/// A child announced in Parent_annce.
pub struct ChildInfo(pub IeeeAddress);

/// 2.4.3.1.12 Parent_annce
pub struct ParentAnnce {
    pub number_of_children: u8,
    pub children: heapless::Vec<ChildInfo, 2040>,
}

/// 2.4.3.1.13 User_Desc_set
pub struct UserDescSet {
    /// NWK address for the request.
    pub nwk_addr_of_interest: NwkAddress,
    /// Length of the User Descriptor in bytes.
    pub length: u8,
    /// The user description, padded with spaces to sixteen characters;
    /// characters 0x00 to 0x1f are not permitted.
    pub user_description: heapless::Vec<u8, 255>,
}

/// 2.4.3.1.14 System_Server_Discovery_req
pub struct SystemServerDiscoveryReq {
    pub server_mask: ServerMask,
}

/// 2.4.3.1.15 Discovery_store_req
pub struct DiscoveryStoreReq {
    /// NWK Address for the Local Device.
    pub nwk_addr: NwkAddress,
    /// IEEE Address for the Local Device.
    pub ieee_addr: IeeeAddress,
    /// Size in bytes of the Node Descriptor for the Local Device.
    pub node_desc_size: u8,
    /// Size in bytes of the Power Descriptor for the Local Device.
    pub power_desc_size: u8,
    /// Size in bytes of the ActiveEPCount and ActiveEPList fields of the
    /// Active_EP_rsp for the Local Device.
    pub active_ep_size: u8,
    /// Number of Simple Descriptors supported by the Local Device.
    pub simple_desc_count: u8,
    /// The size in bytes of the Simple Descriptor of each active endpoint.
    pub simple_desc_size_list: heapless::Vec<u8, 255>,
}

/// 2.4.3.1.16 Node_Desc_store_req
pub struct NodeDescStoreReq {
    /// NWK Address for the Local Device
    pub nwk_addr: NwkAddress,
    /// IEEE Address for the Local Device.
    pub ieee_addr: IeeeAddress,
    /// Node Descriptor
    pub node_descriptor: NodeDescriptor,
}

} // verus!
