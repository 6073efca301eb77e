//! The worker of a Ruby application.
use vstd::prelude::*;

use crate::server::virtual_host::path::interface::python::rsgi::WorkerView;

verus! {

/// Runs the Ruby application `target` found in `directory`.
pub struct RubyWorker {
    directory: String,
    target: String,
}

impl View for RubyWorker {
    type V = WorkerView;

    closed spec fn view(&self) -> WorkerView {
        WorkerView { directory: self.directory@, target: self.target@ }
    }
}

impl RubyWorker {
    pub fn new(directory: String, target: String) -> (r: RubyWorker)
        ensures
            r@ == (WorkerView { directory: directory@, target: target@ }),
    {
        RubyWorker { directory, target }
    }
}

} // verus!
