//! Security services: the auxiliary frame header.
pub mod frame;
