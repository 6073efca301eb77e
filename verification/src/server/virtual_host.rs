//! Handlers of the paths a virtual host serves.
pub mod path;
