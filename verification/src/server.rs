//! Server-wide configuration (hosts and listeners) and the request handlers of the server.
use vstd::prelude::*;

use crate::errors::ConfigError;
use crate::host::{HostConfig, HostView};
use crate::listener::{HttpVersion, ListenerConfig, ListenerView};

pub mod http;
pub mod virtual_host;

verus! {

broadcast use vstd::string::group_string_axioms;

/// A listener offering HTTP/2 or HTTP/3 needs TLS.
pub open spec fn needs_tls(l: ListenerView) -> bool {
    l.protos.contains(HttpVersion::Http2) || l.protos.contains(HttpVersion::Http3)
}

/// Some listener needs TLS.
pub open spec fn any_needs_tls(ls: Seq<ListenerView>) -> bool {
    exists|i: int| 0 <= i < ls.len() && needs_tls(#[trigger] ls[i])
}

/// Every host has TLS settings.
pub open spec fn all_hosts_secure(hs: Seq<HostView>) -> bool {
    forall|i: int| 0 <= i < hs.len() ==> (#[trigger] hs[i]).security is Some
}

/// Abstract content of a server configuration.
pub struct ServerView {
    pub hosts: Seq<HostView>,
    pub listeners: Seq<ListenerView>,
}

pub open spec fn host_views(v: Seq<HostConfig>) -> Seq<HostView> {
    v.map_values(|h: HostConfig| h@)
}

pub open spec fn listener_views(v: Seq<ListenerConfig>) -> Seq<ListenerView> {
    v.map_values(|l: ListenerConfig| l@)
}

/// The message a server configuration is refused with, if any.
pub open spec fn server_refusal(v: ServerView) -> Option<Seq<char>> {
    if v.listeners.len() == 0 {
        Some("No listeners configured"@)
    } else if v.hosts.len() == 0 {
        Some("No hosts configured"@)
    } else if any_needs_tls(v.listeners) && !all_hosts_secure(v.hosts) {
        Some(tls_message())
    } else {
        None
    }
}

pub open spec fn tls_message() -> Seq<char> {
    "You enabled HTTP/2 and HTTP/3 support in your listeners, but your hosts doesnt't have TLS configuration provided."@
}

/// Collects the hosts and listeners of a server.
pub struct ServerConfigBuilder {
    hosts: Vec<HostConfig>,
    listeners: Vec<ListenerConfig>,
}

impl View for ServerConfigBuilder {
    type V = ServerView;

    closed spec fn view(&self) -> ServerView {
        ServerView { hosts: host_views(self.hosts@), listeners: listener_views(self.listeners@) }
    }
}

/// Whether a listener offers HTTP/2 or HTTP/3.
fn listener_needs_tls(l: &ListenerConfig) -> (r: bool)
    ensures
        r == needs_tls(l@),
{
    let protos = l.protos();
    let mut i: usize = 0;
    while i < protos.len()
        invariant
            i <= protos@.len(),
            protos@ == l@.protos,
            forall|j: int| 0 <= j < i ==> protos@[j] != HttpVersion::Http2 && protos@[j]
                != HttpVersion::Http3,
        decreases protos@.len() - i,
    {
        if protos[i] == HttpVersion::Http2 || protos[i] == HttpVersion::Http3 {
            assert(protos@[i as int] == HttpVersion::Http2 ==> l@.protos.contains(HttpVersion::Http2));
            assert(protos@[i as int] == HttpVersion::Http3 ==> l@.protos.contains(HttpVersion::Http3));
            return true;
        }
        i = i + 1;
    }
    false
}

impl ServerConfigBuilder {
    /// Adds a host after those already added.
    pub fn add_host(self, host: HostConfig) -> (r: Self)
        ensures
            r@ == (ServerView { hosts: self@.hosts.push(host@), ..self@ }),
    {
        let mut hosts = self.hosts;
        let ghost old_h = hosts@;
        hosts.push(host);
        assert(host_views(hosts@) =~= host_views(old_h).push(host@));
        ServerConfigBuilder { hosts, listeners: self.listeners }
    }

    /// Adds a listener after those already added.
    pub fn add_listener(self, listener: ListenerConfig) -> (r: Self)
        ensures
            r@ == (ServerView { listeners: self@.listeners.push(listener@), ..self@ }),
    {
        let mut listeners = self.listeners;
        let ghost old_l = listeners@;
        listeners.push(listener);
        assert(listener_views(listeners@) =~= listener_views(old_l).push(listener@));
        ServerConfigBuilder { hosts: self.hosts, listeners }
    }

    /// Checks that a listener and a host are configured and that, when a listener offers
    /// HTTP/2 or HTTP/3, every host has TLS settings.
    pub fn build(self) -> (r: Result<ServerConfig, ConfigError>)
        ensures
            match server_refusal(self@) {
                Some(msg) => r matches Err(ConfigError::Server(m)) && m@ == msg,
                None => r matches Ok(c) && c@ == self@,
            },
    {
        if self.listeners.len() == 0 {
            return Err(ConfigError::Server("No listeners configured".to_string()));
        }
        if self.hosts.len() == 0 {
            return Err(ConfigError::Server("No hosts configured".to_string()));
        }
        let ghost lv = listener_views(self.listeners@);
        let ghost hv = host_views(self.hosts@);
        let mut requires_tls = false;
        let mut i: usize = 0;
        while i < self.listeners.len()
            invariant
                i <= self.listeners@.len(),
                lv == listener_views(self.listeners@),
                requires_tls == (exists|j: int| 0 <= j < i && needs_tls(#[trigger] lv[j])),
            decreases self.listeners@.len() - i,
        {
            let n = listener_needs_tls(&self.listeners[i]);
            assert(lv[i as int] == self.listeners@[i as int]@);
            requires_tls = requires_tls || n;
            i = i + 1;
        }
        if requires_tls {
            assert(lv.len() == self.listeners@.len());
            assert(any_needs_tls(lv));
            let mut k: usize = 0;
            while k < self.hosts.len()
                invariant
                    k <= self.hosts@.len(),
                    hv == host_views(self.hosts@),
                    any_needs_tls(lv),
                    lv == listener_views(self.listeners@),
                    self.listeners@.len() > 0,
                    self.hosts@.len() > 0,
                    forall|j: int| 0 <= j < k ==> (#[trigger] hv[j]).security is Some,
                decreases self.hosts@.len() - k,
            {
                assert(hv[k as int] == self.hosts@[k as int]@);
                if self.hosts[k].security().is_none() {
                    assert(!(hv[k as int].security is Some));
                    assert(!all_hosts_secure(hv));
                    assert(any_needs_tls(lv));
                    assert(self@.listeners.len() != 0);
                    assert(self@.hosts == hv);
                    assert(self@.listeners == lv);
                    assert(server_refusal(self@) == Some(tls_message()));
                    return Err(ConfigError::Server(
                        "You enabled HTTP/2 and HTTP/3 support in your listeners, but your hosts doesnt't have TLS configuration provided.".to_string(),
                    ));
                }
                k = k + 1;
            }
        }
        Ok(ServerConfig { hosts: self.hosts, listeners: self.listeners })
    }
}

/// Settings of a server: its hosts and listeners.
pub struct ServerConfig {
    hosts: Vec<HostConfig>,
    listeners: Vec<ListenerConfig>,
}

impl View for ServerConfig {
    type V = ServerView;

    closed spec fn view(&self) -> ServerView {
        ServerView { hosts: host_views(self.hosts@), listeners: listener_views(self.listeners@) }
    }
}

impl Default for ServerConfig {
    fn default() -> (r: Self)
        ensures
            r@.hosts.len() == 0,
            r@.listeners.len() == 0,
    {
        ServerConfig { hosts: Vec::new(), listeners: Vec::new() }
    }
}

impl ServerConfig {
    /// A builder with no hosts and no listeners.
    pub fn builder() -> (r: ServerConfigBuilder)
        ensures
            r@.hosts.len() == 0,
            r@.listeners.len() == 0,
    {
        ServerConfigBuilder { hosts: Vec::new(), listeners: Vec::new() }
    }

    pub fn hosts(&self) -> (r: &Vec<HostConfig>)
        ensures
            host_views(r@) == self@.hosts,
    {
        &self.hosts
    }

    pub fn listeners(&self) -> (r: &Vec<ListenerConfig>)
        ensures
            listener_views(r@) == self@.listeners,
    {
        &self.listeners
    }
}

/// A built server configuration has a listener and a host, and when one of its listeners
/// offers HTTP/2 or HTTP/3 every one of its hosts has TLS settings.
pub proof fn lemma_accepted_server_consistent(v: ServerView)
    requires
        server_refusal(v) is None,
    ensures
        v.listeners.len() > 0,
        v.hosts.len() > 0,
        any_needs_tls(v.listeners) ==> all_hosts_secure(v.hosts),
{
}

/// A server with a listener that offers HTTP/2 or HTTP/3 and a host without TLS settings
/// is refused, with the message that says so.
pub proof fn lemma_http2_or_http3_listener_needs_secure_hosts(v: ServerView, i: int, k: int)
    requires
        0 <= i < v.listeners.len(),
        v.listeners[i].protos.contains(HttpVersion::Http2) || v.listeners[i].protos.contains(
            HttpVersion::Http3,
        ),
        0 <= k < v.hosts.len(),
        v.hosts[k].security is None,
    ensures
        server_refusal(v)
            == Some(
            "You enabled HTTP/2 and HTTP/3 support in your listeners, but your hosts doesnt't have TLS configuration provided."@,
        ),
{
    assert(needs_tls(v.listeners[i]));
    assert(any_needs_tls(v.listeners));
    assert(!all_hosts_secure(v.hosts));
}

/// A server with a listener and a host, none of whose listeners offers HTTP/2 or HTTP/3,
/// is accepted whatever TLS settings its hosts have.
pub proof fn lemma_plain_listeners_accepted(v: ServerView)
    requires
        v.listeners.len() > 0,
        v.hosts.len() > 0,
        forall|i: int|
            0 <= i < v.listeners.len() ==> !(#[trigger] v.listeners[i]).protos.contains(HttpVersion::Http2)
                && !v.listeners[i].protos.contains(HttpVersion::Http3),
    ensures
        server_refusal(v) is None,
{
}

} // verus!
