//! Group management: adding and removing group table entries for the
//! endpoints of this device. See Section 2.2.4.5.
use vstd::prelude::*;

verus! {

/// A group address for an endpoint.
#[derive(Debug, Clone, Copy, PartialEq, Eq, Structural)]
pub struct ApsmeAddrGroupRequest {
    pub group_address: u16,
    pub endpoint: u8,
}

} // verus!
