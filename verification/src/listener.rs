//! Listener configuration: the port, the HTTP versions offered and the interface bound.
use vstd::prelude::*;

use crate::errors::{ConfigError, VetisError};

verus! {

broadcast use vstd::string::group_string_axioms;

/// An HTTP protocol version a listener can offer.
#[derive(Clone, Copy, Debug, PartialEq, Eq, Structural)]
pub enum HttpVersion {
    Http09,
    Http10,
    Http11,
    Http2,
    Http3,
}

/// An IP address: four bytes for IPv4, sixteen for IPv6.
#[derive(Clone, Copy, Debug, PartialEq, Eq)]
pub enum IpAddress {
    V4([u8; 4]),
    V6([u8; 16]),
}

/// Abstract content of a listener configuration.
pub struct ListenerView {
    pub port: u16,
    pub protos: Seq<HttpVersion>,
    pub interface: IpAddress,
}

/// Every interface: `0.0.0.0`.
pub open spec fn unspecified_v4() -> IpAddress {
    IpAddress::V4([0u8, 0u8, 0u8, 0u8])
}

/// Port 80, HTTP/1.1, every interface.
pub open spec fn default_listener() -> ListenerView {
    ListenerView { port: 80, protos: seq![HttpVersion::Http11], interface: unspecified_v4() }
}

fn unspecified() -> (r: IpAddress)
    ensures
        r == unspecified_v4(),
{
    IpAddress::V4([0u8, 0u8, 0u8, 0u8])
}

fn http11_only() -> (r: Vec<HttpVersion>)
    ensures
        r@ == seq![HttpVersion::Http11],
{
    let mut v: Vec<HttpVersion> = Vec::new();
    v.push(HttpVersion::Http11);
    v
}

/// Collects the settings of a listener.
#[derive(Clone)]
pub struct ListenerConfigBuilder {
    port: u16,
    protos: Vec<HttpVersion>,
    interface: IpAddress,
}

impl View for ListenerConfigBuilder {
    type V = ListenerView;

    closed spec fn view(&self) -> ListenerView {
        ListenerView { port: self.port, protos: self.protos@, interface: self.interface }
    }
}

impl ListenerConfigBuilder {
    pub fn port(self, port: u16) -> (r: Self)
        ensures
            r@ == (ListenerView { port, ..self@ }),
    {
        ListenerConfigBuilder { port, ..self }
    }

    pub fn interface(self, interface: IpAddress) -> (r: Self)
        ensures
            r@ == (ListenerView { interface, ..self@ }),
    {
        ListenerConfigBuilder { interface, ..self }
    }

    pub fn protos(self, protos: Vec<HttpVersion>) -> (r: Self)
        ensures
            r@ == (ListenerView { protos: protos@, ..self@ }),
    {
        ListenerConfigBuilder { protos, ..self }
    }

    /// Checks that the port is not 0.
    pub fn build(self) -> (r: Result<ListenerConfig, VetisError>)
        ensures
            self@.port == 0 ==> (r matches Err(VetisError::Config(ConfigError::Listener(m))) && m@
                == "Port cannot be 0"@),
            self@.port != 0 ==> (r matches Ok(c) && c@ == self@),
    {
        if self.port == 0 {
            return Err(VetisError::Config(ConfigError::Listener("Port cannot be 0".to_string())));
        }
        Ok(ListenerConfig { port: self.port, protos: self.protos, interface: self.interface })
    }
}

/// Settings of a listener.
#[derive(Clone, PartialEq)]
pub struct ListenerConfig {
    port: u16,
    protos: Vec<HttpVersion>,
    interface: IpAddress,
}

impl View for ListenerConfig {
    type V = ListenerView;

    closed spec fn view(&self) -> ListenerView {
        ListenerView { port: self.port, protos: self.protos@, interface: self.interface }
    }
}

impl Default for ListenerConfig {
    fn default() -> (r: Self)
        ensures
            r@ == default_listener(),
    {
        ListenerConfig { port: 80, protos: http11_only(), interface: unspecified() }
    }
}

impl From<u16> for ListenerConfig {
    /// The default listener on `port`.
    fn from(port: u16) -> (r: Self)
        ensures
            r@ == (ListenerView { port, ..default_listener() }),
    {
        ListenerConfig { port, protos: http11_only(), interface: unspecified() }
    }
}

impl vstd::std_specs::convert::FromSpecImpl<u16> for ListenerConfig {
    open spec fn obeys_from_spec() -> bool {
        false
    }

    open spec fn from_spec(v: u16) -> Self {
        arbitrary()
    }
}

impl From<HttpVersion> for ListenerConfig {
    /// The default listener offering only `protos`.
    fn from(protos: HttpVersion) -> (r: Self)
        ensures
            r@ == (ListenerView { protos: seq![protos], ..default_listener() }),
    {
        let mut v: Vec<HttpVersion> = Vec::new();
        v.push(protos);
        ListenerConfig { port: 80, protos: v, interface: unspecified() }
    }
}

impl vstd::std_specs::convert::FromSpecImpl<HttpVersion> for ListenerConfig {
    open spec fn obeys_from_spec() -> bool {
        false
    }

    open spec fn from_spec(v: HttpVersion) -> Self {
        arbitrary()
    }
}

impl From<(u16, HttpVersion)> for ListenerConfig {
    /// The default listener on the given port, offering only the given version.
    fn from(value: (u16, HttpVersion)) -> (r: Self)
        ensures
            r@ == (ListenerView { port: value.0, protos: seq![value.1], ..default_listener() }),
    {
        let (port, protos) = value;
        let mut v: Vec<HttpVersion> = Vec::new();
        v.push(protos);
        ListenerConfig { port, protos: v, interface: unspecified() }
    }
}

impl vstd::std_specs::convert::FromSpecImpl<(u16, HttpVersion)> for ListenerConfig {
    open spec fn obeys_from_spec() -> bool {
        false
    }

    open spec fn from_spec(v: (u16, HttpVersion)) -> Self {
        arbitrary()
    }
}

impl ListenerConfig {
    /// A builder for the default listener.
    pub fn builder() -> (r: ListenerConfigBuilder)
        ensures
            r@ == default_listener(),
    {
        ListenerConfigBuilder { port: 80, protos: http11_only(), interface: unspecified() }
    }

    pub fn port(&self) -> (r: u16)
        ensures
            r == self@.port,
    {
        self.port
    }

    pub fn protos(&self) -> (r: &Vec<HttpVersion>)
        ensures
            r@ == self@.protos,
    {
        &self.protos
    }

    pub fn interface(&self) -> (r: &IpAddress)
        ensures
            *r == self@.interface,
    {
        &self.interface
    }
}

} // verus!
