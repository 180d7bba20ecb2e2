//! Application Support Sub-Layer Management Entity.
//!
//! The APSME provides binding management, AIB management, security and
//! group management to the application.
use vstd::prelude::*;

pub mod basemgt;
pub mod groupmgt;

use basemgt::{
    ApsmeAddGroupConfirm, ApsmeAddGroupRequest, ApsmeBindConfirm, ApsmeBindRequest,
    ApsmeBindRequestStatus, ApsmeGetConfirm, ApsmeGetConfirmStatus, ApsmeRemoveAllGroupsConfirm,
    ApsmeRemoveAllGroupsRequest, ApsmeRemoveGroupConfirm, ApsmeRemoveGroupRequest,
    ApsmeSetConfirm, ApsmeSetConfirmStatus, ApsmeUnbindConfirm, ApsmeUnbindRequest,
    ApsmeUnbindRequestStatus,
};

use super::aib::{AIBAttribute, ApsInformationBase};
use super::binding::{requested_binding, ApsBindingTable, BindingError, BINDING_TABLE_SIZE};
use super::types::Address;
use crate::nwk::nlme::management::NlmeJoinRequest;
use crate::nwk::nlme::Nlme;

verus! {

/// Application support sub-layer management service - service access point.
/// See Section 2.2.4.2.
pub trait ApsmeSap {
    /// 2.2.4.3.1 - bind two devices together, or a device to a group.
    fn bind_request(&mut self, request: ApsmeBindRequest) -> ApsmeBindConfirm;

    /// 2.2.4.3.3 - unbind two devices, or a device from a group.
    fn unbind_request(&mut self, request: ApsmeUnbindRequest) -> ApsmeUnbindConfirm;

    /// 2.2.4.4.1 - APSME-GET.request
    fn get(&self, attribute: u8) -> ApsmeGetConfirm;

    /// 2.2.4.4.3 - APSME-SET.request
    fn set(&mut self, attribute: AIBAttribute) -> ApsmeSetConfirm;

    /// 2.2.4.5.1 - APSME-ADD-GROUP.request
    fn add_group(&self, request: ApsmeAddGroupRequest) -> ApsmeAddGroupConfirm;

    /// 2.2.4.5.3 - APSME-REMOVE-GROUP.request
    fn remove_group(&self, request: ApsmeRemoveGroupRequest) -> ApsmeRemoveGroupConfirm;

    /// 2.2.4.5.5 - APSME-REMOVE-ALL-GROUPS.request
    fn remove_all_groups(&self, request: ApsmeRemoveAllGroupsRequest) -> ApsmeRemoveAllGroupsConfirm;
}

/// The management entity of this stack.
pub struct Apsme {
    pub supports_binding_table: bool,
    pub binding_table: ApsBindingTable,
    pub joined_network: Option<Address>,
    pub aib: ApsInformationBase,
    pub nwk: Nlme,
}

/// The status of a bind request: refused unless the device has joined a
/// network and keeps a binding table, table full when it is, success
/// otherwise.
pub open spec fn bind_status(
    joined: bool,
    supports_binding_table: bool,
    bindings: nat,
) -> ApsmeBindRequestStatus {
    if !joined || !supports_binding_table {
        ApsmeBindRequestStatus::IllegalRequest
    } else if bindings >= BINDING_TABLE_SIZE {
        ApsmeBindRequestStatus::TableFull
    } else {
        ApsmeBindRequestStatus::Success
    }
}

impl Apsme {
    /// A management entity with a binding table, not joined to any network.
    pub fn new() -> (r: Apsme)
        ensures
            r.supports_binding_table,
            r.binding_table@.len() == 0,
            r.joined_network is None,
            r.aib@.dom().is_empty(),
    {
        Apsme {
            supports_binding_table: true,
            binding_table: ApsBindingTable::new(),
            joined_network: None,
            aib: ApsInformationBase::new(),
            nwk: Nlme::new(),
        }
    }

    /// Whether the device has joined a network.
    pub fn is_joined(&self) -> (r: bool)
        ensures
            r == self.joined_network is Some,
    {
        self.joined_network.is_some()
    }

    /// Asks the network layer to join the configured network. The answer is
    /// not acted on yet.
    pub fn join_network(&self) {
        let request = NlmeJoinRequest {
            extended_pan_id: 0x0015_8D00_01AB_CD12,
            rejoin_network: 0u8,
            scan_duration: 10u8,
            security_enabled: false,
        };
        let _confirm = self.nwk.join(request);
    }
}

impl ApsmeSap for Apsme {
    /// 2.2.4.3.1 - APSME-BIND.request
    fn bind_request(&mut self, request: ApsmeBindRequest) -> (r: ApsmeBindConfirm)
        ensures
            r == (ApsmeBindConfirm {
                status: bind_status(
                    old(self).joined_network is Some,
                    old(self).supports_binding_table,
                    old(self).binding_table@.len(),
                ),
                src_address: request.src_address,
                src_endpoint: request.src_endpoint,
                cluster_id: request.cluster_id,
                dst_addr_mode: request.dst_addr_mode,
                dst_address: request.dst_address,
                dst_endpoint: request.dst_endpoint,
            }),
            final(self).binding_table@ == if r.status == ApsmeBindRequestStatus::Success {
                old(self).binding_table@.push(requested_binding(request))
            } else {
                old(self).binding_table@
            },
            final(self).supports_binding_table == old(self).supports_binding_table,
            final(self).joined_network == old(self).joined_network,
            final(self).aib@ == old(self).aib@,
    {
        let status = if !self.is_joined() || !self.supports_binding_table {
            ApsmeBindRequestStatus::IllegalRequest
        } else if self.binding_table.is_full() {
            ApsmeBindRequestStatus::TableFull
        } else {
            match self.binding_table.create_binding_link(&request) {
                Ok(_) => ApsmeBindRequestStatus::Success,
                Err(_) => ApsmeBindRequestStatus::IllegalRequest,
            }
        };
        ApsmeBindConfirm {
            status,
            src_address: request.src_address,
            src_endpoint: request.src_endpoint,
            cluster_id: request.cluster_id,
            dst_addr_mode: request.dst_addr_mode,
            dst_address: request.dst_address,
            dst_endpoint: request.dst_endpoint,
        }
    }

    /// 2.2.4.3.3 - APSME-UNBIND.request. Bindings are not removed yet: a
    /// joined device answers every request with an invalid binding.
    fn unbind_request(&mut self, request: ApsmeUnbindRequest) -> (r: ApsmeUnbindConfirm)
        ensures
            r == (ApsmeUnbindConfirm {
                status: if old(self).joined_network is Some {
                    ApsmeUnbindRequestStatus::InvalidBinding
                } else {
                    ApsmeUnbindRequestStatus::IllegalRequest
                },
                src_address: request.src_address,
                src_endpoint: request.src_endpoint,
                cluster_id: request.cluster_id,
                dst_addr_mode: request.dst_addr_mode,
                dst_address: request.dst_address,
                dst_endpoint: request.dst_endpoint,
            }),
            final(self).binding_table@ == old(self).binding_table@,
            final(self).joined_network == old(self).joined_network,
    {
        let status = if !self.is_joined() {
            ApsmeUnbindRequestStatus::IllegalRequest
        } else {
            match self.binding_table.remove_binding_link(&request) {
                Ok(_) => ApsmeUnbindRequestStatus::Success,
                Err(BindingError::InvalidBinding) => ApsmeUnbindRequestStatus::InvalidBinding,
                Err(_) => ApsmeUnbindRequestStatus::IllegalRequest,
            }
        };
        ApsmeUnbindConfirm {
            status,
            src_address: request.src_address,
            src_endpoint: request.src_endpoint,
            cluster_id: request.cluster_id,
            dst_addr_mode: request.dst_addr_mode,
            dst_address: request.dst_address,
            dst_endpoint: request.dst_endpoint,
        }
    }

    /// 2.2.4.4.1 - APSME-GET.request
    fn get(&self, identifier: u8) -> (r: ApsmeGetConfirm)
        ensures
            !self.aib@.contains_key(identifier) ==> {
                &&& r.status == ApsmeGetConfirmStatus::UnsupportedAttribute
                &&& r.attribute == identifier
                &&& r.attribute_length == 0
                &&& r.attribute_value is None
            },
            self.aib@.contains_key(identifier) ==> {
                &&& r.status == ApsmeGetConfirmStatus::Success
                &&& r.attribute == self.aib@[identifier].spec_id()
                &&& r.attribute_length == 0
                &&& r.attribute_value is Some
                &&& r.attribute_value->Some_0@ == self.aib@[identifier].spec_value()
            },
    {
        match self.aib.get_attribute(identifier) {
            None => ApsmeGetConfirm {
                status: ApsmeGetConfirmStatus::UnsupportedAttribute,
                attribute: identifier,
                attribute_length: 0,
                attribute_value: None,
            },
            Some(attr) => ApsmeGetConfirm {
                status: ApsmeGetConfirmStatus::Success,
                attribute: attr.id(),
                attribute_length: attr.length(),
                attribute_value: Some(attr.value()),
            },
        }
    }

    /// 2.2.4.4.3 - APSME-SET.request
    fn set(&mut self, attribute: AIBAttribute) -> (r: ApsmeSetConfirm)
        ensures
            r == (ApsmeSetConfirm {
                status: ApsmeSetConfirmStatus::Success,
                identifier: attribute.spec_id(),
            }),
            final(self).aib@ == old(self).aib@,
            final(self).binding_table@ == old(self).binding_table@,
            final(self).joined_network == old(self).joined_network,
    {
        let id = attribute.id();
        let status = match self.aib.write_attribute_value(id, attribute) {
            Ok(_) => ApsmeSetConfirmStatus::Success,
            Err(_) => ApsmeSetConfirmStatus::InvalidParameter,
        };
        ApsmeSetConfirm { status, identifier: id }
    }

    /// 2.2.4.5.1 - APSME-ADD-GROUP.request
    fn add_group(&self, request: ApsmeAddGroupRequest) -> ApsmeAddGroupConfirm {
        ApsmeAddGroupConfirm {}
    }

    /// 2.2.4.5.3 - APSME-REMOVE-GROUP.request
    fn remove_group(&self, request: ApsmeRemoveGroupRequest) -> ApsmeRemoveGroupConfirm {
        ApsmeRemoveGroupConfirm {}
    }

    /// 2.2.4.5.5 - APSME-REMOVE-ALL-GROUPS.request
    fn remove_all_groups(&self, request: ApsmeRemoveAllGroupsRequest) -> ApsmeRemoveAllGroupsConfirm {
        ApsmeRemoveAllGroupsConfirm {}
    }
}

} // verus!
