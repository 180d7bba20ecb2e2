//! Application framework descriptors. See Section 2.3.2.
use vstd::prelude::*;

verus! {

/// Logical Type Field. See Section 2.3.2.3.1. The codes 0b011 to 0b111 are
/// reserved.
#[derive(Debug, Clone, Copy, PartialEq, Eq, Structural)]
pub enum LogicalType {
    Coordinator,
    Router,
    EndDevice,
}

/// Descriptor Capability Field. See Section 2.3.2.3.12. Bits 2 to 7 are
/// reserved.
#[derive(Debug, Clone, Copy, PartialEq, Eq, Structural)]
pub enum DescriptorCapabilityField {
    ExtendedActiveEndpointListAvailable,
    ExtendedSimpleDescriptorListAvailable,
}

/// Current Power Mode Field. See Section 2.3.2.4.1. The codes 0b0011 to
/// 0b1111 are reserved.
#[derive(Debug, Clone, Copy, PartialEq, Eq, Structural)]
pub enum CurrentPowerModeField {
    ReceiverSynchronized,
    Periodically,
    WhenStimulated,
}

/// Available Power Sources and Current Power Source Fields.
/// See Sections 2.3.2.4.2 and 2.3.2.4.3.
#[derive(Debug, Clone, Copy, PartialEq, Eq, Structural)]
pub enum PowerSource {
    Constant,
    RechargeableBattery,
    DisposableBattery,
    Reserved,
}

/// Current Power Source Level Field. See Section 2.3.2.4.4.
#[derive(Debug, Clone, Copy, PartialEq, Eq, Structural)]
pub enum PowerLevel {
    Critical,
    /// 33%
    Low,
    /// 66%
    High,
    /// 100%
    Full,
}

/// Simple Descriptor. See Section 2.3.2.5.
pub struct SimpleDescriptor {
    pub endpoint: u8,
    pub appl_prof_id: u16,
    pub appl_dev_id: u16,
    pub appl_dev_vers: u8,
    pub appl_input_clusters: heapless::Vec<u16, 131070>,
    pub appl_output_clusters: u8,
}

/// User Descriptor. See Section 2.3.2.7.
#[derive(Debug, Clone, Copy, PartialEq, Eq)]
pub struct UserDescriptor {
    pub descriptor: [u8; 16],
}

} // verus!
