//! Configuration of a path served by a host.
use vstd::prelude::*;

verus! {

/// A path configuration read from a host's configuration file; its URI can be rewritten.
pub trait PathConfig: Send + Sync {
    fn uri(&mut self, value: &str);
}

} // verus!
