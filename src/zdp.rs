//! The ZigBee Device Profile. See Section 2.4.
pub mod client_services;
