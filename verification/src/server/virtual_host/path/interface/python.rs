//! Python application interfaces.
pub mod rsgi;
