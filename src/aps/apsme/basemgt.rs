//! Binding management and information base maintenance primitives.
//! See Sections 2.2.4.3 and 2.2.4.4.
use vstd::prelude::*;

use crate::aps::aib::{AIBAttribute, AIBAttributeValue};
use crate::aps::types::{Address, SrcEndpoint};

verus! {

/// 2.2.4.3.1 - APSME-BIND.request
#[derive(Debug, Clone, Copy, Default, PartialEq, Eq, Structural)]
pub struct ApsmeBindRequest {
    pub src_address: Address,
    pub src_endpoint: SrcEndpoint,
    pub cluster_id: u16,
    pub dst_addr_mode: u8,
    pub dst_address: u8,
    pub dst_endpoint: u8,
}

/// The status of a bind request.
#[derive(Debug, Clone, Copy, Default, PartialEq, Eq, Structural)]
pub enum ApsmeBindRequestStatus {
    #[default]
    Success,
    IllegalRequest,
    TableFull,
    NotSupported,
}

/// 2.2.4.3.2 - APSME-BIND.confirm
#[derive(Debug, Clone, Copy, Default, PartialEq, Eq, Structural)]
pub struct ApsmeBindConfirm {
    pub status: ApsmeBindRequestStatus,
    pub src_address: Address,
    pub src_endpoint: SrcEndpoint,
    pub cluster_id: u16,
    pub dst_addr_mode: u8,
    pub dst_address: u8,
    pub dst_endpoint: u8,
}

/// 2.2.4.3.3 - APSME-UNBIND.request
#[derive(Debug, Clone, Copy, Default, PartialEq, Eq, Structural)]
pub struct ApsmeUnbindRequest {
    pub src_address: Address,
    pub src_endpoint: SrcEndpoint,
    pub cluster_id: u16,
    pub dst_addr_mode: u8,
    pub dst_address: u8,
    pub dst_endpoint: u8,
}

/// The status of an unbind request.
#[derive(Debug, Clone, Copy, Default, PartialEq, Eq, Structural)]
pub enum ApsmeUnbindRequestStatus {
    #[default]
    Success,
    IllegalRequest,
    InvalidBinding,
}

/// 2.2.4.3.4 - APSME-UNBIND.confirm
#[derive(Debug, Clone, Copy, Default, PartialEq, Eq, Structural)]
pub struct ApsmeUnbindConfirm {
    pub status: ApsmeUnbindRequestStatus,
    pub src_address: Address,
    pub src_endpoint: SrcEndpoint,
    pub cluster_id: u16,
    pub dst_addr_mode: u8,
    pub dst_address: u8,
    pub dst_endpoint: u8,
}

/// 2.2.4.4.1 - APSME-GET.request
#[derive(Debug, Default, PartialEq)]
pub struct ApsmeGetRequest {
    pub attribute: AIBAttribute,
}

/// 2.2.4.4.2 - APSME-GET.confirm
#[derive(Debug, Clone, Copy, Default, PartialEq, Eq)]
pub struct ApsmeGetConfirm {
    pub status: ApsmeGetConfirmStatus,
    pub attribute: u8,
    pub attribute_length: u8,
    pub attribute_value: Option<AIBAttributeValue>,
}

/// The status of a get request.
#[derive(Debug, Clone, Copy, Default, PartialEq, Eq, Structural)]
pub enum ApsmeGetConfirmStatus {
    #[default]
    Success,
    UnsupportedAttribute,
}

/// 2.2.4.4.3 - APSME-SET.request
#[derive(Debug, Default, PartialEq)]
pub struct ApsmeSetRequest {
    pub attribute: AIBAttribute,
    pub attribute_length: u8,
    pub attribute_value: AIBAttributeValue,
}

/// The status of a set request.
#[derive(Debug, Clone, Copy, Default, PartialEq, Eq, Structural)]
pub enum ApsmeSetConfirmStatus {
    #[default]
    Success,
    InvalidParameter,
    UnsupportedAttribute,
}

/// 2.2.4.4.4 - APSME-SET.confirm
#[derive(Debug, Clone, Copy, Default, PartialEq, Eq, Structural)]
pub struct ApsmeSetConfirm {
    pub status: ApsmeSetConfirmStatus,
    pub identifier: u8,
}

/// 2.2.4.5.1 - APSME-ADD-GROUP.request
#[derive(Debug, Clone, Copy, Default, PartialEq, Eq, Structural)]
pub struct ApsmeAddGroupRequest {}

/// 2.2.4.5.2 - APSME-ADD-GROUP.confirm
#[derive(Debug, Clone, Copy, Default, PartialEq, Eq, Structural)]
pub struct ApsmeAddGroupConfirm {}

/// 2.2.4.5.3 - APSME-REMOVE-GROUP.request
#[derive(Debug, Clone, Copy, Default, PartialEq, Eq, Structural)]
pub struct ApsmeRemoveGroupRequest {}

/// 2.2.4.5.4 - APSME-REMOVE-GROUP.confirm
#[derive(Debug, Clone, Copy, Default, PartialEq, Eq, Structural)]
pub struct ApsmeRemoveGroupConfirm {}

/// 2.2.4.5.5 - APSME-REMOVE-ALL-GROUPS.request
#[derive(Debug, Clone, Copy, Default, PartialEq, Eq, Structural)]
pub struct ApsmeRemoveAllGroupsRequest {}

/// 2.2.4.5.6 - APSME-REMOVE-ALL-GROUPS.confirm
#[derive(Debug, Clone, Copy, Default, PartialEq, Eq, Structural)]
pub struct ApsmeRemoveAllGroupsConfirm {}

} // verus!
