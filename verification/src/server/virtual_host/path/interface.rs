//! Workers that run applications through PHP, Python (RSGI) and Ruby interfaces.
pub mod php;
pub mod python;
pub mod ruby;
