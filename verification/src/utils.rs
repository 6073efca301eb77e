//! Small helpers shared by the handlers.
pub mod date;
