//! Application Support Sub-Layer Data Entity.
//!
//! The APSDE provides a data service to the network layer and to both ZDO
//! and application objects, for the transport of application PDUs between
//! devices.
use vstd::prelude::*;

use super::types::{Address, DstAddrMode, SrcAddrMode, SrcEndpoint, TxOptions};

verus! {

/// Application support sub-layer data entity – service access point.
/// See Section 2.2.4.1.1.
///
/// Interface between the NWK layer and the APL layer through a general set
/// of services for use by both the ZDO and the application.
pub trait ApsdeSap {
    /// 2.2.4.1.1 - APSDE-DATA.request: requests the transfer of a NHLE PDU
    /// from a local NHLE to one or more peer NHLE entities.
    fn data_request(&self, request: ApsdeSapRequest) -> ApsdeSapConfirm;
}

/// The data entity of this stack.
#[derive(Debug, Clone, Copy, Default, PartialEq, Eq, Structural)]
pub struct Apsde {
    pub supports_binding_table: bool,
}

/// The status that a data request reports: success for a request without a
/// destination address on a device with a binding table, no acknowledgement
/// otherwise.
pub open spec fn data_request_status(
    dst_addr_mode: DstAddrMode,
    supports_binding_table: bool,
) -> ApsdeSapConfirmStatus {
    if dst_addr_mode == DstAddrMode::NotPresent && supports_binding_table {
        ApsdeSapConfirmStatus::Success
    } else {
        ApsdeSapConfirmStatus::NoAck
    }
}

impl Apsde {
    /// 2.2.4.1.1 - APSDE-DATA.request
    pub fn data_request(&self, request: ApsdeSapRequest) -> (r: ApsdeSapConfirm)
        ensures
            r == (ApsdeSapConfirm {
                dst_addr_mode: request.dst_addr_mode,
                dst_address: request.dst_address,
                dst_endpoint: request.dst_endpoint,
                src_endpoint: request.src_endpoint,
                status: data_request_status(request.dst_addr_mode, self.supports_binding_table),
                tx_time: 0,
            }),
    {
        let status = match request.dst_addr_mode {
            DstAddrMode::NotPresent => {
                if self.supports_binding_table {
                    ApsdeSapConfirmStatus::Success
                } else {
                    ApsdeSapConfirmStatus::NoAck
                }
            },
            _ => ApsdeSapConfirmStatus::NoAck,
        };
        ApsdeSapConfirm {
            dst_addr_mode: request.dst_addr_mode,
            dst_address: request.dst_address,
            dst_endpoint: request.dst_endpoint,
            src_endpoint: request.src_endpoint,
            status,
            tx_time: 0,
        }
    }
}

impl ApsdeSap for Apsde {
    fn data_request(&self, request: ApsdeSapRequest) -> ApsdeSapConfirm {
        Apsde::data_request(self, request)
    }
}

/// APSDE-DATA.request. See Section 2.2.4.1.1.
#[derive(Debug, Clone, Copy, Default, PartialEq, Eq, Structural)]
pub struct ApsdeSapRequest {
    pub dst_addr_mode: DstAddrMode,
    pub dst_address: Address,
    pub dst_endpoint: u8,
    pub profile_id: u16,
    pub cluster_id: u16,
    pub src_endpoint: SrcEndpoint,
    pub asdulength: u8,
    pub asdu: u8,
    pub tx_options: TxOptions,
    pub use_alias: bool,
    pub alias_src_addr: u16,
    pub alias_seq_number: u8,
    pub radius_counter: u8,
}

/// The status of the corresponding request.
#[derive(Debug, Clone, Copy, Default, PartialEq, Eq, Structural)]
pub enum ApsdeSapConfirmStatus {
    /// The request to transmit was successful.
    #[default]
    Success,
    /// No corresponding 16-bit NWK address found.
    NoShortAddress,
    /// No binding table entries found with the given source endpoint and
    /// cluster identifier.
    NoBoundDevice,
    /// The security processing failed.
    SecurityFail,
    /// One or more APS acknowledgements were not correctly received.
    NoAck,
    /// The ASDU is larger than will fit in a single frame and fragmentation
    /// is not possible.
    AsduTooLong,
}

/// APSDE-DATA.confirm. See Section 2.2.4.1.2.
#[derive(Debug, Clone, Copy, Default, PartialEq, Eq, Structural)]
pub struct ApsdeSapConfirm {
    pub dst_addr_mode: DstAddrMode,
    pub dst_address: Address,
    pub dst_endpoint: u8,
    pub src_endpoint: SrcEndpoint,
    pub status: ApsdeSapConfirmStatus,
    pub tx_time: u8,
}

/// The status of a data indication.
#[derive(Debug, Clone, Copy, Default, PartialEq, Eq, Structural)]
pub enum ApsdeSapIndicationStatus {
    #[default]
    Success,
    DefragUnsupported,
    DefragDeferred,
}

/// How a received frame was secured.
#[derive(Debug, Clone, Copy, Default, PartialEq, Eq, Structural)]
pub enum SecurityStatus {
    #[default]
    Unsecured,
    SecuredNwkKey,
    SecuredLinkKey,
}

/// APSDE-DATA.indication. See Section 2.2.4.1.3.
#[derive(Debug, Clone, Copy, Default, PartialEq, Eq, Structural)]
pub struct ApsdeSapIndication {
    pub dst_addr_mode: DstAddrMode,
    pub dst_address: u8,
    pub dst_endpoint: u8,
    pub src_addr_mode: SrcAddrMode,
    pub src_address: u64,
    pub src_endpoint: SrcEndpoint,
    pub profile_id: u16,
    pub cluster_id: u16,
    pub asdulength: u8,
    pub status: ApsdeSapIndicationStatus,
    pub security_status: SecurityStatus,
    pub link_quality: u8,
    pub rx_time: u8,
}

} // verus!
