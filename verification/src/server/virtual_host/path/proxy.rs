//! A path that forwards requests to another server.
use vstd::prelude::*;

use crate::config::{ProxyPathConfig, ProxyPathView};

verus! {

broadcast use vstd::string::group_string_axioms;

/// Forwards the requests below its URI to its target server.
pub struct ProxyPath {
    config: ProxyPathConfig,
}

impl View for ProxyPath {
    type V = ProxyPathView;

    closed spec fn view(&self) -> ProxyPathView {
        self.config@
    }
}

impl ProxyPath {
    pub fn new(config: ProxyPathConfig) -> (r: ProxyPath)
        ensures
            r@ == config@,
    {
        ProxyPath { config }
    }

    /// The URI below which requests are forwarded.
    pub fn uri(&self) -> (r: &str)
        ensures
            r@ == self@.uri,
    {
        self.config.uri()
    }

    /// The URL a request is forwarded to: the target followed by the part of the request
    /// path below the proxy's URI.
    pub fn target_url(&self, uri: &str) -> (r: String)
        ensures
            r@ == self@.target + uri@,
    {
        let mut url = self.config.target().to_string();
        url.append(uri);
        url
    }
}

} // verus!
