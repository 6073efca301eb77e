//! Configuration of the paths that a virtual host serves.
use vstd::prelude::*;

pub mod static_files;

verus! {

/// A path configuration read from a host's configuration file; its URI can be rewritten.
pub trait PathConfig: Send + Sync {
    fn uri(&mut self, value: &str);
}

} // verus!
