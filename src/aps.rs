//! The application support sub-layer (APS): the interface between the
//! network layer and the application layer.
pub mod aib;
pub mod apsde;
pub mod apsme;
pub mod binding;
pub mod types;
