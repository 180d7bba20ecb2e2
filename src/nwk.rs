//! The network (NWK) layer.
pub mod frame;
pub mod nib;
pub mod nlme;
