//! ZigBee application framework: the node and node power descriptors.
pub mod node_descriptor;
pub mod node_power_descriptor;
