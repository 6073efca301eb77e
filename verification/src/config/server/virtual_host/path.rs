//! Configuration of paths handed to application interfaces.
pub mod interface;
