//! The RSGI worker of a Python application.
use vstd::prelude::*;

verus! {

/// The application a worker runs: its directory and its entry point.
pub struct WorkerView {
    pub directory: Seq<char>,
    pub target: Seq<char>,
}

/// Runs the application `target` found in `directory` through RSGI.
pub struct RsgiWorker {
    directory: String,
    target: String,
}

impl View for RsgiWorker {
    type V = WorkerView;

    closed spec fn view(&self) -> WorkerView {
        WorkerView { directory: self.directory@, target: self.target@ }
    }
}

impl RsgiWorker {
    pub fn new(directory: String, target: String) -> (r: RsgiWorker)
        ensures
            r@ == (WorkerView { directory: directory@, target: target@ }),
    {
        RsgiWorker { directory, target }
    }

    pub fn directory(&self) -> (r: &String)
        ensures
            r@ == self@.directory,
    {
        &self.directory
    }

    pub fn target(&self) -> (r: &String)
        ensures
            r@ == self@.target,
    {
        &self.target
    }
}

} // verus!
