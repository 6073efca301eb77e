//! PHP application interface.
pub mod sapi;
