//! Handlers of static files, reverse-proxy paths and application interfaces.
pub mod interface;
pub mod proxy;
pub mod static_files;
