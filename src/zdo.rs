//! The ZigBee device object: configuration and the device's entry points.
use vstd::prelude::*;

use crate::aps::apsme::Apsme;
use crate::zaf::node_descriptor::LogicalType;

verus! {

/// Discovery type.
#[derive(Debug, Clone, Copy, Default, PartialEq, Eq, Structural)]
pub enum DiscoveryType {
    /// The IEEE address request is unicast to a particular device and assumes
    /// the NWK address is known.
    #[default]
    IEEE,
    /// The NWK address request is broadcast and carries the known IEEE address
    /// as data payload.
    NWK,
}

/// Zigbee configuration.
#[derive(Debug, Clone, Copy, Default, PartialEq, Eq, Structural)]
pub struct Config {
    /// The radio channel to operate on
    pub radio_channel: u8,
    /// Discovery type
    pub device_discovery_type: DiscoveryType,
    /// This indicates the device class
    pub device_type: LogicalType,
}

/// A ZigBee network.
#[derive(Debug, Clone, Copy, PartialEq, Eq, Structural)]
pub struct ZigBeeNetwork {}

/// A ZigBee device.
pub struct ZigbeeDevice {
    config: Config,
    apsme: Apsme,
}

impl ZigbeeDevice {
    /// A device with the default configuration, not connected to a network.
    pub fn new() -> (r: ZigbeeDevice)
        ensures
            r.spec_config() == (Config {
                radio_channel: 0,
                device_discovery_type: DiscoveryType::IEEE,
                device_type: LogicalType::ZigBeeCoordinator,
            }),
            !r.spec_is_connected(),
    {
        ZigbeeDevice {
            config: Config {
                radio_channel: 0,
                device_discovery_type: DiscoveryType::IEEE,
                device_type: LogicalType::ZigBeeCoordinator,
            },
            apsme: Apsme::new(),
        }
    }

    /// The device's configuration.
    pub closed spec fn spec_config(self) -> Config {
        self.config
    }

    /// Whether the device has joined a network.
    pub closed spec fn spec_is_connected(self) -> bool {
        self.apsme.joined_network is Some
    }

    /// Applying a configuration is not supported yet; the device keeps its
    /// own.
    pub fn configure(&self, config: Config) {
    }

    /// Indicates if the device is connected to a zigbee network.
    pub fn is_connected(&self) -> (r: bool)
        ensures
            r == self.spec_is_connected(),
    {
        self.apsme.is_joined()
    }

    /// Asks the network layer to join a network.
    pub fn try_to_connect(&self) {
        self.apsme.join_network()
    }

    /// Exchanging security keys is not supported yet.
    pub fn setup_security(&self) {
    }

    /// Keep-alive messages are not supported yet.
    pub fn send_keep_alive(&self) {
    }

    /// Sending data is not supported yet.
    pub fn send_data(&self, _input: &[u8]) {
    }

    /// Service discovery (Section 2.1.3.2) is not supported yet.
    pub fn start_service_discovery(&self) {
    }
}

} // verus!
