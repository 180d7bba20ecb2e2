//! Network Management Entity. See Section 3.2.2.
//!
//! The NLME configures a device, starts, joins and leaves networks, and
//! handles addressing, neighbor and route discovery.
use vstd::prelude::*;

pub mod management;

use management::{
    NlmeEdScanConfirm, NlmeEdScanRequest, NlmeJoinConfirm, NlmeJoinRequest, NlmeJoinStatus,
    NlmeNetworkDiscoveryConfirm, NlmeNetworkDiscoveryRequest, NlmeNetworkFormationConfirm,
    NlmeNetworkFormationRequest, NlmePermitJoiningConfirm, NlmePermitJoiningRequest,
    NlmeStartRouterConfirm, NlmeStartRouterRequest,
};

verus! {

/// Network management service access point. See Section 3.2.2.
///
/// Carries management commands between the next higher layer and the NLME.
pub trait NlmeSap {
    /// 3.2.2.3
    fn network_discovery(&self, request: NlmeNetworkDiscoveryRequest) -> NlmeNetworkDiscoveryConfirm;

    /// 3.2.2.5
    fn network_formation(&self, request: NlmeNetworkFormationRequest) -> NlmeNetworkFormationConfirm;

    /// 3.2.2.7
    fn permit_joining(&self, request: NlmePermitJoiningRequest) -> NlmePermitJoiningConfirm;

    /// 3.2.2.9
    fn start_router(&self, request: NlmeStartRouterRequest) -> NlmeStartRouterConfirm;

    /// 3.2.2.11
    fn ed_scan(&self, request: NlmeEdScanRequest) -> NlmeEdScanConfirm;

    /// 3.2.2.13
    fn join(&self, request: NlmeJoinRequest) -> NlmeJoinConfirm;
}

/// The network management entity of this stack. Joining is not yet
/// supported: every join request is refused as invalid.
pub struct Nlme {}

impl Nlme {
    /// A management entity.
    pub fn new() -> (r: Nlme) {
        Nlme {}
    }

    /// Answers a join request. See Figure 3-39. This stack refuses every
    /// request as invalid and reports no address.
    pub fn join(&self, request: NlmeJoinRequest) -> (r: NlmeJoinConfirm)
        ensures
            r.status == NlmeJoinStatus::InvalidRequest,
            r.network_address == 0,
            r.extended_pan_id == 0,
            !r.enhanced_beacon_type,
            r.mac_interface_index == 0,
    {
        NlmeJoinConfirm {
            status: NlmeJoinStatus::InvalidRequest,
            network_address: 0u16,
            extended_pan_id: 0u64,
            enhanced_beacon_type: false,
            mac_interface_index: 0u8,
        }
    }
}

} // verus!
