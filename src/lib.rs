//! A ZigBee protocol stack for memory-bounded devices: the wire-format codec,
//! the network-layer frame model, the security auxiliary header and the
//! bit-flag descriptors built on it, with the data shapes of the management
//! services around them.
use vstd::prelude::*;

pub mod address;
pub mod apl;
pub mod aps;
pub mod bitfield;
pub mod buffers;
pub mod codec;
pub mod nwk;
pub mod security;
pub mod support;
pub mod zaf;
pub mod zdo;
pub mod zdp;

pub use apl::LogicalType;
pub use zdo::{Config, DiscoveryType, ZigBeeNetwork, ZigbeeDevice};

verus! {

/// A new device with the given configuration.
pub fn init(config: Config) -> (r: ZigbeeDevice)
    ensures
        !r.spec_is_connected(),
{
    let device = ZigbeeDevice::new();
    device.configure(config);
    device
}

} // verus!
