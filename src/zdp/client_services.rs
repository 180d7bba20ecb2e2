//! Device profile client services. See Section 2.4.3.
pub mod discovery;
