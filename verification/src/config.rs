//! Configuration builders: listeners, servers, virtual hosts, their paths and TLS.
use vstd::prelude::*;

use std::collections::HashMap;

use crate::config::auth::Auth;
use crate::errors::{ConfigError, VetisError};
use crate::model::{opt_bytes, opt_pair_seq, opt_text_seq, push_header, text_seq, with_header};
use crate::std_types::file_exists;

pub mod auth;
pub mod server;

verus! {

broadcast use vstd::string::group_string_axioms;

/// The HTTP protocol a listener speaks.
#[derive(Clone, Copy, Debug, Eq, PartialEq, Structural)]
#[non_exhaustive]
pub enum Protocol {
    Http1,
    Http2,
    Http3,
}

/// Abstract content of a listener configuration.
pub struct ListenerView {
    pub port: u16,
    pub protocol: Protocol,
    pub interface: Seq<char>,
}

/// Collects the settings of a listener.
#[derive(Clone)]
pub struct ListenerConfigBuilder {
    port: u16,
    protocol: Protocol,
    interface: String,
}

impl View for ListenerConfigBuilder {
    type V = ListenerView;

    closed spec fn view(&self) -> ListenerView {
        ListenerView { port: self.port, protocol: self.protocol, interface: self.interface@ }
    }
}

impl ListenerConfigBuilder {
    pub fn port(self, port: u16) -> (r: Self)
        ensures
            r@ == (ListenerView { port, ..self@ }),
    {
        ListenerConfigBuilder { port, ..self }
    }

    pub fn interface(self, interface: &str) -> (r: Self)
        ensures
            r@ == (ListenerView { interface: interface@, ..self@ }),
    {
        ListenerConfigBuilder { interface: interface.to_string(), ..self }
    }

    pub fn protocol(self, protocol: Protocol) -> (r: Self)
        ensures
            r@ == (ListenerView { protocol, ..self@ }),
    {
        ListenerConfigBuilder { protocol, ..self }
    }

    /// Checks that the port is not 0 and that an interface is given.
    pub fn build(self) -> (r: Result<ListenerConfig, ConfigError>)
        ensures
            self@.port == 0 ==> (r matches Err(ConfigError::Listener(m)) && m@
                == "Port cannot be 0"@),
            self@.port != 0 && self@.interface.len() == 0 ==> (r matches Err(
                ConfigError::Listener(m),
            ) && m@ == "Interface cannot be empty"@),
            self@.port != 0 && self@.interface.len() != 0 ==> (r matches Ok(c) && c@ == self@),
    {
        if self.port == 0 {
            return Err(ConfigError::Listener("Port cannot be 0".to_string()));
        }
        if self.interface.as_str().is_empty() {
            return Err(ConfigError::Listener("Interface cannot be empty".to_string()));
        }
        Ok(ListenerConfig { port: self.port, protocol: self.protocol, interface: self.interface })
    }
}

/// Settings of a listener: port, protocol and the interface it binds.
pub struct ListenerConfig {
    port: u16,
    protocol: Protocol,
    interface: String,
}

impl View for ListenerConfig {
    type V = ListenerView;

    closed spec fn view(&self) -> ListenerView {
        ListenerView { port: self.port, protocol: self.protocol, interface: self.interface@ }
    }
}

impl Clone for ListenerConfig {
    fn clone(&self) -> (r: Self)
        ensures
            r@ == self@,
    {
        proof {
            use_type_invariant(self);
        }
        ListenerConfig { port: self.port, protocol: self.protocol, interface: self.interface.clone() }
    }
}

impl ListenerConfig {
    /// A built listener has a port other than 0 and an interface.
    #[verifier::type_invariant]
    spec fn well_formed(&self) -> bool {
        self.port != 0 && self.interface@.len() > 0
    }

    /// A builder for HTTP/1 on port 80 of every interface.
    pub fn builder() -> (r: ListenerConfigBuilder)
        ensures
            r@ == (ListenerView { port: 80, protocol: Protocol::Http1, interface: "0.0.0.0"@ }),
    {
        ListenerConfigBuilder { port: 80, protocol: Protocol::Http1, interface: "0.0.0.0".to_string() }
    }

    pub fn port(&self) -> (r: u16)
        ensures
            r == self@.port,
            r != 0,
    {
        proof {
            use_type_invariant(self);
        }
        self.port
    }

    pub fn protocol(&self) -> (r: &Protocol)
        ensures
            *r == self@.protocol,
    {
        &self.protocol
    }

    pub fn interface(&self) -> (r: &str)
        ensures
            r@ == self@.interface,
            r@.len() > 0,
    {
        proof {
            use_type_invariant(self);
        }
        self.interface.as_str()
    }
}

pub open spec fn listener_views(v: Seq<ListenerConfig>) -> Seq<ListenerView> {
    v.map_values(|l: ListenerConfig| l@)
}

/// Collects the listeners of a server.
#[derive(Clone)]
pub struct ServerConfigBuilder {
    listeners: Vec<ListenerConfig>,
}

impl View for ServerConfigBuilder {
    type V = Seq<ListenerView>;

    closed spec fn view(&self) -> Seq<ListenerView> {
        listener_views(self.listeners@)
    }
}

impl ServerConfigBuilder {
    /// Adds a listener after those already added.
    pub fn add_listener(self, listener: ListenerConfig) -> (r: Self)
        ensures
            r@ == self@.push(listener@),
    {
        let mut listeners = self.listeners;
        let ghost old_l = listeners@;
        listeners.push(listener);
        assert(listener_views(listeners@) =~= listener_views(old_l).push(listener@));
        ServerConfigBuilder { listeners }
    }

    /// Checks that at least one listener is configured.
    pub fn build(self) -> (r: Result<ServerConfig, ConfigError>)
        ensures
            self@.len() == 0 ==> (r matches Err(ConfigError::Server(m)) && m@
                == "No listeners configured"@),
            self@.len() != 0 ==> (r matches Ok(c) && c@ == self@),
    {
        if self.listeners.len() == 0 {
            return Err(ConfigError::Server("No listeners configured".to_string()));
        }
        Ok(ServerConfig { listeners: self.listeners })
    }
}

/// Settings of a server: its listeners.
#[derive(Clone)]
pub struct ServerConfig {
    listeners: Vec<ListenerConfig>,
}

impl View for ServerConfig {
    type V = Seq<ListenerView>;

    closed spec fn view(&self) -> Seq<ListenerView> {
        listener_views(self.listeners@)
    }
}

impl Default for ServerConfig {
    fn default() -> (r: Self)
        ensures
            r@.len() == 0,
    {
        ServerConfig { listeners: Vec::new() }
    }
}

impl ServerConfig {
    /// A builder with no listeners.
    pub fn builder() -> (r: ServerConfigBuilder)
        ensures
            r@.len() == 0,
    {
        ServerConfigBuilder { listeners: Vec::new() }
    }

    pub fn listeners(&self) -> (r: &Vec<ListenerConfig>)
        ensures
            listener_views(r@) == self@,
    {
        &self.listeners
    }
}

/// Abstract content of a static-files path configuration.
pub struct StaticPathView {
    pub uri: Seq<char>,
    pub extensions: Seq<char>,
    pub directory: Seq<char>,
    pub index_files: Option<Seq<Seq<char>>>,
    pub auth: Option<Auth>,
}

/// Abstract content of a reverse-proxy path configuration.
pub struct ProxyPathView {
    pub uri: Seq<char>,
    pub target: Seq<char>,
}

pub open spec fn opt_static_views(o: Option<Vec<StaticPathConfig>>) -> Option<Seq<StaticPathView>> {
    match o {
        Some(v) => Some(v@.map_values(|c: StaticPathConfig| c@)),
        None => None,
    }
}

pub open spec fn opt_proxy_views(o: Option<Vec<ProxyPathConfig>>) -> Option<Seq<ProxyPathView>> {
    match o {
        Some(v) => Some(v@.map_values(|c: ProxyPathConfig| c@)),
        None => None,
    }
}

pub open spec fn opt_security_view(o: Option<SecurityConfig>) -> Option<SecurityView> {
    match o {
        Some(s) => Some(s@),
        None => None,
    }
}

/// Abstract content of a virtual host configuration.
pub struct VirtualHostView {
    pub hostname: Seq<char>,
    pub port: u16,
    pub root_directory: Seq<char>,
    pub default_headers: Option<Seq<(Seq<char>, Seq<char>)>>,
    pub security: Option<SecurityView>,
    pub status_pages: Option<HashMap<u16, String>>,
    pub enable_logging: bool,
    pub static_paths: Option<Seq<StaticPathView>>,
    pub proxy_paths: Option<Seq<ProxyPathView>>,
}

/// Collects the settings of a virtual host.
pub struct VirtualHostConfigBuilder {
    hostname: String,
    port: u16,
    root_directory: String,
    default_headers: Option<Vec<(String, String)>>,
    security: Option<SecurityConfig>,
    status_pages: Option<HashMap<u16, String>>,
    enable_logging: bool,
    static_paths: Option<Vec<StaticPathConfig>>,
    proxy_paths: Option<Vec<ProxyPathConfig>>,
}

impl View for VirtualHostConfigBuilder {
    type V = VirtualHostView;

    closed spec fn view(&self) -> VirtualHostView {
        VirtualHostView {
            hostname: self.hostname@,
            port: self.port,
            root_directory: self.root_directory@,
            default_headers: opt_pair_seq(self.default_headers),
            security: opt_security_view(self.security),
            status_pages: self.status_pages,
            enable_logging: self.enable_logging,
            static_paths: opt_static_views(self.static_paths),
            proxy_paths: opt_proxy_views(self.proxy_paths),
        }
    }
}

impl VirtualHostConfigBuilder {
    pub fn hostname(self, hostname: &str) -> (r: Self)
        ensures
            r@ == (VirtualHostView { hostname: hostname@, ..self@ }),
    {
        VirtualHostConfigBuilder { hostname: hostname.to_string(), ..self }
    }

    pub fn port(self, port: u16) -> (r: Self)
        ensures
            r@ == (VirtualHostView { port, ..self@ }),
    {
        VirtualHostConfigBuilder { port, ..self }
    }

    pub fn root_directory(self, root_directory: &str) -> (r: Self)
        ensures
            r@ == (VirtualHostView { root_directory: root_directory@, ..self@ }),
    {
        VirtualHostConfigBuilder { root_directory: root_directory.to_string(), ..self }
    }

    /// Appends a header that every response of the host carries.
    pub fn header(self, key: &str, value: &str) -> (r: Self)
        ensures
            r@ == (VirtualHostView {
                default_headers: with_header(self@.default_headers, key@, value@),
                ..self@
            }),
    {
        let headers = push_header(self.default_headers, key, value);
        VirtualHostConfigBuilder { default_headers: headers, ..self }
    }

    pub fn security(self, security: SecurityConfig) -> (r: Self)
        ensures
            r@ == (VirtualHostView { security: Some(security@), ..self@ }),
    {
        VirtualHostConfigBuilder { security: Some(security), ..self }
    }

    pub fn status_pages(self, status_pages: HashMap<u16, String>) -> (r: Self)
        ensures
            r@ == (VirtualHostView { status_pages: Some(status_pages), ..self@ }),
    {
        VirtualHostConfigBuilder { status_pages: Some(status_pages), ..self }
    }

    pub fn enable_logging(self, logging: bool) -> (r: Self)
        ensures
            r@ == (VirtualHostView { enable_logging: logging, ..self@ }),
    {
        VirtualHostConfigBuilder { enable_logging: logging, ..self }
    }

    pub fn static_paths(self, static_paths: Vec<StaticPathConfig>) -> (r: Self)
        ensures
            r@ == (VirtualHostView {
                static_paths: opt_static_views(Some(static_paths)),
                ..self@
            }),
    {
        VirtualHostConfigBuilder { static_paths: Some(static_paths), ..self }
    }

    pub fn proxy_paths(self, proxy_paths: Vec<ProxyPathConfig>) -> (r: Self)
        ensures
            r@ == (VirtualHostView { proxy_paths: opt_proxy_views(Some(proxy_paths)), ..self@ }),
    {
        VirtualHostConfigBuilder { proxy_paths: Some(proxy_paths), ..self }
    }

    /// Builds the configuration once it is known whether the document root exists.
    pub fn build_checked(self, root_exists: bool) -> (r: Result<VirtualHostConfig, VetisError>)
        ensures
            self@.hostname.len() == 0 ==> (r matches Err(
                VetisError::Config(ConfigError::VirtualHost(m)),
            ) && m@ == "hostname is not provided"@),
            self@.hostname.len() != 0 && self@.root_directory.len() == 0 ==> (r matches Err(
                VetisError::Config(ConfigError::VirtualHost(m)),
            ) && m@ == "root_directory is not provided"@),
            self@.hostname.len() != 0 && self@.root_directory.len() != 0 && !root_exists ==> (
            r matches Err(VetisError::Config(ConfigError::VirtualHost(m))) && m@
                == "root_directory does not exist: "@ + self@.root_directory),
            self@.hostname.len() != 0 && self@.root_directory.len() != 0 && root_exists ==> (
            r matches Ok(c) && c@ == self@),
    {
        if self.hostname.as_str().is_empty() {
            return Err(
                VetisError::Config(ConfigError::VirtualHost("hostname is not provided".to_string())),
            );
        }
        if self.root_directory.as_str().is_empty() {
            return Err(
                VetisError::Config(
                    ConfigError::VirtualHost("root_directory is not provided".to_string()),
                ),
            );
        }
        if !root_exists {
            let mut msg = "root_directory does not exist: ".to_string();
            msg.append(self.root_directory.as_str());
            return Err(VetisError::Config(ConfigError::VirtualHost(msg)));
        }
        Ok(
            VirtualHostConfig {
                hostname: self.hostname,
                port: self.port,
                root_directory: self.root_directory,
                default_headers: self.default_headers,
                security: self.security,
                status_pages: self.status_pages,
                enable_logging: self.enable_logging,
                static_paths: self.static_paths,
                proxy_paths: self.proxy_paths,
            },
        )
    }

    /// Checks that a host name and a document root are given and that the root exists.
    pub fn build(self) -> (r: Result<VirtualHostConfig, VetisError>)
        ensures
            self@.hostname.len() == 0 ==> (r matches Err(
                VetisError::Config(ConfigError::VirtualHost(m)),
            ) && m@ == "hostname is not provided"@),
            self@.hostname.len() != 0 && self@.root_directory.len() == 0 ==> (r matches Err(
                VetisError::Config(ConfigError::VirtualHost(m)),
            ) && m@ == "root_directory is not provided"@),
            self@.hostname.len() != 0 && self@.root_directory.len() != 0 ==> (r matches Ok(c) && c@
                == self@) || (r matches Err(VetisError::Config(ConfigError::VirtualHost(m))) && m@
                == "root_directory does not exist: "@ + self@.root_directory),
    {
        let root_exists = if self.hostname.as_str().is_empty() || self.root_directory.as_str().is_empty() {
            false
        } else {
            file_exists(self.root_directory.as_str())
        };
        self.build_checked(root_exists)
    }
}

/// Settings of a virtual host.
pub struct VirtualHostConfig {
    hostname: String,
    port: u16,
    root_directory: String,
    default_headers: Option<Vec<(String, String)>>,
    security: Option<SecurityConfig>,
    status_pages: Option<HashMap<u16, String>>,
    enable_logging: bool,
    static_paths: Option<Vec<StaticPathConfig>>,
    proxy_paths: Option<Vec<ProxyPathConfig>>,
}

impl View for VirtualHostConfig {
    type V = VirtualHostView;

    closed spec fn view(&self) -> VirtualHostView {
        VirtualHostView {
            hostname: self.hostname@,
            port: self.port,
            root_directory: self.root_directory@,
            default_headers: opt_pair_seq(self.default_headers),
            security: opt_security_view(self.security),
            status_pages: self.status_pages,
            enable_logging: self.enable_logging,
            static_paths: opt_static_views(self.static_paths),
            proxy_paths: opt_proxy_views(self.proxy_paths),
        }
    }
}

impl Clone for VirtualHostConfig {
    /// A copy with the same host name, port, document root and logging setting.
    fn clone(&self) -> (r: Self)
        ensures
            r@.hostname == self@.hostname,
            r@.port == self@.port,
            r@.root_directory == self@.root_directory,
            r@.enable_logging == self@.enable_logging,
    {
        proof {
            use_type_invariant(self);
        }
        VirtualHostConfig {
            hostname: self.hostname.clone(),
            port: self.port,
            root_directory: self.root_directory.clone(),
            default_headers: self.default_headers.clone(),
            security: self.security.clone(),
            status_pages: self.status_pages.clone(),
            enable_logging: self.enable_logging,
            static_paths: self.static_paths.clone(),
            proxy_paths: self.proxy_paths.clone(),
        }
    }
}

impl VirtualHostConfig {
    /// A built virtual host has a host name and a document root.
    #[verifier::type_invariant]
    spec fn well_formed(&self) -> bool {
        self.hostname@.len() > 0 && self.root_directory@.len() > 0
    }

    /// A builder for `localhost` on port 80 serving `/var/vetis/www`, with logging enabled.
    pub fn builder() -> (r: VirtualHostConfigBuilder)
        ensures
            r@ == (VirtualHostView {
                hostname: "localhost"@,
                port: 80,
                root_directory: "/var/vetis/www"@,
                default_headers: None,
                security: None,
                status_pages: None,
                enable_logging: true,
                static_paths: None,
                proxy_paths: None,
            }),
    {
        VirtualHostConfigBuilder {
            hostname: "localhost".to_string(),
            port: 80,
            root_directory: "/var/vetis/www".to_string(),
            default_headers: None,
            security: None,
            status_pages: None,
            enable_logging: true,
            static_paths: None,
            proxy_paths: None,
        }
    }

    pub fn hostname(&self) -> (r: &str)
        ensures
            r@ == self@.hostname,
            r@.len() > 0,
    {
        proof {
            use_type_invariant(self);
        }
        self.hostname.as_str()
    }

    pub fn port(&self) -> (r: u16)
        ensures
            r == self@.port,
    {
        self.port
    }

    pub fn root_directory(&self) -> (r: &str)
        ensures
            r@ == self@.root_directory,
            r@.len() > 0,
    {
        proof {
            use_type_invariant(self);
        }
        self.root_directory.as_str()
    }

    pub fn default_headers(&self) -> (r: &Option<Vec<(String, String)>>)
        ensures
            opt_pair_seq(*r) == self@.default_headers,
    {
        &self.default_headers
    }

    pub fn security(&self) -> (r: &Option<SecurityConfig>)
        ensures
            opt_security_view(*r) == self@.security,
    {
        &self.security
    }

    pub fn status_pages(&self) -> (r: &Option<HashMap<u16, String>>)
        ensures
            *r == self@.status_pages,
    {
        &self.status_pages
    }

    pub fn enable_logging(&self) -> (r: bool)
        ensures
            r == self@.enable_logging,
    {
        self.enable_logging
    }

    pub fn static_paths(&self) -> (r: &Option<Vec<StaticPathConfig>>)
        ensures
            opt_static_views(*r) == self@.static_paths,
    {
        &self.static_paths
    }

    pub fn proxy_paths(&self) -> (r: &Option<Vec<ProxyPathConfig>>)
        ensures
            opt_proxy_views(*r) == self@.proxy_paths,
    {
        &self.proxy_paths
    }
}

/// Collects the settings of a static-files path.
pub struct StaticPathConfigBuilder {
    uri: String,
    extensions: String,
    directory: String,
    index_files: Option<Vec<String>>,
    auth: Option<Auth>,
}

impl View for StaticPathConfigBuilder {
    type V = StaticPathView;

    closed spec fn view(&self) -> StaticPathView {
        StaticPathView {
            uri: self.uri@,
            extensions: self.extensions@,
            directory: self.directory@,
            index_files: opt_text_seq(self.index_files),
            auth: self.auth,
        }
    }
}

fn path_error(msg: &str) -> (e: VetisError)
    ensures
        e matches VetisError::Config(ConfigError::Path(m)) && m@ == msg@,
{
    VetisError::Config(ConfigError::Path(msg.to_string()))
}

impl StaticPathConfigBuilder {
    pub fn uri(self, uri: &str) -> (r: Self)
        ensures
            r@ == (StaticPathView { uri: uri@, ..self@ }),
    {
        StaticPathConfigBuilder { uri: uri.to_string(), ..self }
    }

    pub fn extensions(self, extensions: &str) -> (r: Self)
        ensures
            r@ == (StaticPathView { extensions: extensions@, ..self@ }),
    {
        StaticPathConfigBuilder { extensions: extensions.to_string(), ..self }
    }

    pub fn directory(self, directory: &str) -> (r: Self)
        ensures
            r@ == (StaticPathView { directory: directory@, ..self@ }),
    {
        StaticPathConfigBuilder { directory: directory.to_string(), ..self }
    }

    pub fn index_files(self, index_files: Vec<String>) -> (r: Self)
        ensures
            r@ == (StaticPathView { index_files: Some(text_seq(index_files@)), ..self@ }),
    {
        StaticPathConfigBuilder { index_files: Some(index_files), ..self }
    }

    pub fn auth(self, auth: Auth) -> (r: Self)
        ensures
            r@ == (StaticPathView { auth: Some(auth), ..self@ }),
    {
        StaticPathConfigBuilder { auth: Some(auth), ..self }
    }

    /// Checks that the URI, the extension pattern and the directory are all given.
    pub fn build(self) -> (r: Result<StaticPathConfig, VetisError>)
        ensures
            self@.uri.len() == 0 ==> (r matches Err(VetisError::Config(ConfigError::Path(m)))
                && m@ == "URI cannot be empty"@),
            self@.uri.len() != 0 && self@.extensions.len() == 0 ==> (r matches Err(
                VetisError::Config(ConfigError::Path(m)),
            ) && m@ == "Extensions cannot be empty"@),
            self@.uri.len() != 0 && self@.extensions.len() != 0 && self@.directory.len() == 0 ==> (
            r matches Err(VetisError::Config(ConfigError::Path(m))) && m@
                == "Directory cannot be empty"@),
            self@.uri.len() != 0 && self@.extensions.len() != 0 && self@.directory.len() != 0 ==> (
            r matches Ok(c) && c@ == self@),
    {
        if self.uri.as_str().is_empty() {
            return Err(path_error("URI cannot be empty"));
        }
        if self.extensions.as_str().is_empty() {
            return Err(path_error("Extensions cannot be empty"));
        }
        if self.directory.as_str().is_empty() {
            return Err(path_error("Directory cannot be empty"));
        }
        Ok(
            StaticPathConfig {
                uri: self.uri,
                extensions: self.extensions,
                directory: self.directory,
                index_files: self.index_files,
                auth: self.auth,
            },
        )
    }
}

/// Settings of a static-files path.
pub struct StaticPathConfig {
    uri: String,
    extensions: String,
    directory: String,
    index_files: Option<Vec<String>>,
    auth: Option<Auth>,
}

impl View for StaticPathConfig {
    type V = StaticPathView;

    closed spec fn view(&self) -> StaticPathView {
        StaticPathView {
            uri: self.uri@,
            extensions: self.extensions@,
            directory: self.directory@,
            index_files: opt_text_seq(self.index_files),
            auth: self.auth,
        }
    }
}

impl Clone for StaticPathConfig {
    /// A copy with the same URI, extension pattern and directory.
    fn clone(&self) -> (r: Self)
        ensures
            r@.uri == self@.uri,
            r@.extensions == self@.extensions,
            r@.directory == self@.directory,
    {
        proof {
            use_type_invariant(self);
        }
        StaticPathConfig {
            uri: self.uri.clone(),
            extensions: self.extensions.clone(),
            directory: self.directory.clone(),
            index_files: self.index_files.clone(),
            auth: self.auth.clone(),
        }
    }
}

impl StaticPathConfig {
    /// A built static path has a URI, an extension pattern and a directory.
    #[verifier::type_invariant]
    spec fn well_formed(&self) -> bool {
        self.uri@.len() > 0 && self.extensions@.len() > 0 && self.directory@.len() > 0
    }

    /// A builder serving `.` under `/` for `.html` files, with no index files and no
    /// authentication.
    pub fn builder() -> (r: StaticPathConfigBuilder)
        ensures
            r@ == (StaticPathView {
                uri: "/"@,
                extensions: ".html"@,
                directory: "."@,
                index_files: None,
                auth: None,
            }),
    {
        StaticPathConfigBuilder {
            uri: "/".to_string(),
            extensions: ".html".to_string(),
            directory: ".".to_string(),
            index_files: None,
            auth: None,
        }
    }

    pub fn uri(&self) -> (r: &str)
        ensures
            r@ == self@.uri,
            r@.len() > 0,
    {
        proof {
            use_type_invariant(self);
        }
        self.uri.as_str()
    }

    pub fn extensions(&self) -> (r: &str)
        ensures
            r@ == self@.extensions,
            r@.len() > 0,
    {
        proof {
            use_type_invariant(self);
        }
        self.extensions.as_str()
    }

    pub fn directory(&self) -> (r: &str)
        ensures
            r@ == self@.directory,
            r@.len() > 0,
    {
        proof {
            use_type_invariant(self);
        }
        self.directory.as_str()
    }

    pub fn index_files(&self) -> (r: &Option<Vec<String>>)
        ensures
            opt_text_seq(*r) == self@.index_files,
    {
        &self.index_files
    }

    pub fn auth(&self) -> (r: &Option<Auth>)
        ensures
            *r == self@.auth,
    {
        &self.auth
    }
}

/// Collects the settings of a reverse-proxy path.
pub struct ProxyPathConfigBuilder {
    uri: String,
    target: String,
}

impl View for ProxyPathConfigBuilder {
    type V = ProxyPathView;

    closed spec fn view(&self) -> ProxyPathView {
        ProxyPathView { uri: self.uri@, target: self.target@ }
    }
}

impl ProxyPathConfigBuilder {
    pub fn uri(self, uri: &str) -> (r: Self)
        ensures
            r@ == (ProxyPathView { uri: uri@, ..self@ }),
    {
        ProxyPathConfigBuilder { uri: uri.to_string(), ..self }
    }

    pub fn target(self, target: &str) -> (r: Self)
        ensures
            r@ == (ProxyPathView { target: target@, ..self@ }),
    {
        ProxyPathConfigBuilder { target: target.to_string(), ..self }
    }

    /// Checks that the URI and the target are given.
    pub fn build(self) -> (r: Result<ProxyPathConfig, VetisError>)
        ensures
            self@.uri.len() == 0 ==> (r matches Err(VetisError::Config(ConfigError::Path(m)))
                && m@ == "URI cannot be empty"@),
            self@.uri.len() != 0 && self@.target.len() == 0 ==> (r matches Err(
                VetisError::Config(ConfigError::Path(m)),
            ) && m@ == "Target cannot be empty"@),
            self@.uri.len() != 0 && self@.target.len() != 0 ==> (r matches Ok(c) && c@ == self@),
    {
        if self.uri.as_str().is_empty() {
            return Err(path_error("URI cannot be empty"));
        }
        if self.target.as_str().is_empty() {
            return Err(path_error("Target cannot be empty"));
        }
        Ok(ProxyPathConfig { uri: self.uri, target: self.target })
    }
}

/// Settings of a reverse-proxy path: the URI it serves and the server it forwards to.
pub struct ProxyPathConfig {
    uri: String,
    target: String,
}

impl View for ProxyPathConfig {
    type V = ProxyPathView;

    closed spec fn view(&self) -> ProxyPathView {
        ProxyPathView { uri: self.uri@, target: self.target@ }
    }
}

impl Clone for ProxyPathConfig {
    fn clone(&self) -> (r: Self)
        ensures
            r@ == self@,
    {
        proof {
            use_type_invariant(self);
        }
        ProxyPathConfig { uri: self.uri.clone(), target: self.target.clone() }
    }
}

impl ProxyPathConfig {
    /// A built proxy path has a URI and a target.
    #[verifier::type_invariant]
    spec fn well_formed(&self) -> bool {
        self.uri@.len() > 0 && self.target@.len() > 0
    }

    /// A builder forwarding `/test` to `http://localhost:8080`.
    pub fn builder() -> (r: ProxyPathConfigBuilder)
        ensures
            r@ == (ProxyPathView { uri: "/test"@, target: "http://localhost:8080"@ }),
    {
        ProxyPathConfigBuilder {
            uri: "/test".to_string(),
            target: "http://localhost:8080".to_string(),
        }
    }

    pub fn uri(&self) -> (r: &str)
        ensures
            r@ == self@.uri,
            r@.len() > 0,
    {
        proof {
            use_type_invariant(self);
        }
        self.uri.as_str()
    }

    pub fn target(&self) -> (r: &str)
        ensures
            r@ == self@.target,
            r@.len() > 0,
    {
        proof {
            use_type_invariant(self);
        }
        self.target.as_str()
    }
}

/// Abstract content of a TLS configuration (and of its builder).
pub struct SecurityView {
    pub cert: Seq<u8>,
    pub key: Seq<u8>,
    pub ca_cert: Option<Seq<u8>>,
    pub client_auth: bool,
}

/// Collects the TLS material of a virtual host.
#[derive(Clone)]
pub struct SecurityConfigBuilder {
    cert: Vec<u8>,
    key: Vec<u8>,
    ca_cert: Option<Vec<u8>>,
    client_auth: bool,
}

impl View for SecurityConfigBuilder {
    type V = SecurityView;

    closed spec fn view(&self) -> SecurityView {
        SecurityView {
            cert: self.cert@,
            key: self.key@,
            ca_cert: opt_bytes(self.ca_cert),
            client_auth: self.client_auth,
        }
    }
}

impl SecurityConfigBuilder {
    pub fn cert_from_bytes(self, cert: Vec<u8>) -> (r: Self)
        ensures
            r@ == (SecurityView { cert: cert@, ..self@ }),
    {
        SecurityConfigBuilder { cert, ..self }
    }

    pub fn key_from_bytes(self, key: Vec<u8>) -> (r: Self)
        ensures
            r@ == (SecurityView { key: key@, ..self@ }),
    {
        SecurityConfigBuilder { key, ..self }
    }

    pub fn ca_cert_from_bytes(self, ca_cert: Vec<u8>) -> (r: Self)
        ensures
            r@ == (SecurityView { ca_cert: Some(ca_cert@), ..self@ }),
    {
        SecurityConfigBuilder { ca_cert: Some(ca_cert), ..self }
    }

    pub fn client_auth(self, client_auth: bool) -> (r: Self)
        ensures
            r@ == (SecurityView { client_auth, ..self@ }),
    {
        SecurityConfigBuilder { client_auth, ..self }
    }

    /// Checks that a certificate and a key were given.
    pub fn build(self) -> (r: Result<SecurityConfig, VetisError>)
        ensures
            self@.cert.len() == 0 ==> (r matches Err(VetisError::Config(ConfigError::Security(m)))
                && m@ == "Certificate is empty"@),
            self@.cert.len() != 0 && self@.key.len() == 0 ==> (r matches Err(
                VetisError::Config(ConfigError::Security(m)),
            ) && m@ == "Key is empty"@),
            self@.cert.len() != 0 && self@.key.len() != 0 ==> (r matches Ok(c) && c@ == self@),
    {
        if self.cert.len() == 0 {
            return Err(VetisError::Config(ConfigError::Security("Certificate is empty".to_string())));
        }
        if self.key.len() == 0 {
            return Err(VetisError::Config(ConfigError::Security("Key is empty".to_string())));
        }
        Ok(
            SecurityConfig {
                cert: self.cert,
                key: self.key,
                ca_cert: self.ca_cert,
                client_auth: self.client_auth,
            },
        )
    }
}

/// Checked TLS settings of a virtual host.
pub struct SecurityConfig {
    cert: Vec<u8>,
    key: Vec<u8>,
    ca_cert: Option<Vec<u8>>,
    client_auth: bool,
}

impl View for SecurityConfig {
    type V = SecurityView;

    closed spec fn view(&self) -> SecurityView {
        SecurityView {
            cert: self.cert@,
            key: self.key@,
            ca_cert: opt_bytes(self.ca_cert),
            client_auth: self.client_auth,
        }
    }
}

impl Clone for SecurityConfig {
    fn clone(&self) -> (r: Self)
        ensures
            r@ == self@,
    {
        proof {
            use_type_invariant(self);
        }
        let ca_cert = match &self.ca_cert {
            Some(c) => Some(c.clone()),
            None => None,
        };
        SecurityConfig {
            cert: self.cert.clone(),
            key: self.key.clone(),
            ca_cert,
            client_auth: self.client_auth,
        }
    }
}

impl SecurityConfig {
    /// A built TLS configuration holds a certificate and a key.
    #[verifier::type_invariant]
    spec fn well_formed(&self) -> bool {
        self.cert@.len() > 0 && self.key@.len() > 0
    }

    /// A builder with no certificate, no key, no CA certificate and no client authentication.
    pub fn builder() -> (r: SecurityConfigBuilder)
        ensures
            r@ == (SecurityView {
                cert: Seq::empty(),
                key: Seq::empty(),
                ca_cert: None,
                client_auth: false,
            }),
    {
        let r = SecurityConfigBuilder {
            cert: Vec::new(),
            key: Vec::new(),
            ca_cert: None,
            client_auth: false,
        };
        assert(r@.cert =~= Seq::empty());
        r
    }

    pub fn cert(&self) -> (r: &Vec<u8>)
        ensures
            r@ == self@.cert,
            r@.len() > 0,
    {
        proof {
            use_type_invariant(self);
        }
        &self.cert
    }

    pub fn key(&self) -> (r: &Vec<u8>)
        ensures
            r@ == self@.key,
            r@.len() > 0,
    {
        proof {
            use_type_invariant(self);
        }
        &self.key
    }

    pub fn ca_cert(&self) -> (r: &Option<Vec<u8>>)
        ensures
            opt_bytes(*r) == self@.ca_cert,
    {
        &self.ca_cert
    }

    pub fn client_auth(&self) -> (r: bool)
        ensures
            r == self@.client_auth,
    {
        self.client_auth
    }
}

} // verus!
