//! Types shared by the APS services.
use vstd::prelude::*;

verus! {

/// Why an APS value was refused.
#[derive(Debug, Clone, Copy, PartialEq, Eq, Structural)]
pub enum ApsError {
    /// The value lies outside its valid range.
    InvalidValue,
}

/// Source address mode.
#[derive(Debug, Clone, Copy, Default, PartialEq, Eq, Structural)]
pub enum SrcAddrMode {
    Reserved,
    #[default]
    Short,
    Extended,
}

/// Destination address mode.
#[derive(Debug, Clone, Copy, Default, PartialEq, Eq, Structural)]
pub enum DstAddrMode {
    #[default]
    NotPresent,
    Group,
    Network,
    Extended,
}

/// A group, network or extended address.
#[derive(Debug, Clone, Copy, Default, PartialEq, Eq, Structural)]
pub enum Address {
    #[default]
    NotPresent,
    Group(u16),
    Network(u16),
    Extended(u64),
}

/// Transmission options.
#[derive(Debug, Clone, Copy, Default, PartialEq, Eq, Structural)]
pub enum TxOptions {
    SecurityEnabled,
    UseNetworkKey,
    #[default]
    Acknowledged,
    FragmentationPermitted,
    IncludeExtendedNonce,
}

/// A source endpoint, 0x00 to 0xfe.
#[derive(Debug, Clone, Copy, Default, PartialEq, Eq, Structural)]
pub struct SrcEndpoint {
    pub value: u8,
}

impl SrcEndpoint {
    /// The endpoint numbered `value`, which must be at most 254.
    pub fn new(value: u8) -> (r: Result<SrcEndpoint, ApsError>)
        ensures
            value <= 254 ==> r == Ok::<SrcEndpoint, ApsError>(SrcEndpoint { value }),
            value > 254 ==> r == Err::<SrcEndpoint, ApsError>(ApsError::InvalidValue),
    {
        if value <= 254 {
            Ok(SrcEndpoint { value })
        } else {
            Err(ApsError::InvalidValue)
        }
    }

    /// The endpoint's number.
    pub fn value(&self) -> (r: u8)
        ensures
            r == self.value,
    {
        self.value
    }
}

} // verus!
