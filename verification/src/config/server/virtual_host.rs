//! Configuration of a virtual host's paths.
pub mod path;
