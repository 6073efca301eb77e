//! Virtual hosts: their configuration and how they route requests.
use vstd::prelude::*;

use std::collections::HashMap;

use crate::errors::{ConfigError, VetisError};
use crate::host::opt_security;
use crate::model::{opt_pair_seq, push_header, with_header};
use crate::security::{SecurityConfig, SecurityView};
use crate::std_types::file_exists;

pub mod path;
pub mod routing;

verus! {

broadcast use vstd::string::group_string_axioms;

/// Abstract content of a virtual host configuration (the configured paths excepted).
pub struct VirtualHostView {
    pub hostname: Seq<char>,
    pub port: u16,
    pub root_directory: Seq<char>,
    pub default_headers: Option<Seq<(Seq<char>, Seq<char>)>>,
    pub security: Option<SecurityView>,
    pub status_pages: Option<HashMap<u16, String>>,
    pub enable_logging: bool,
    pub has_paths: bool,
}

/// Collects the settings of a virtual host.
pub struct VirtualHostConfigBuilder {
    hostname: String,
    port: u16,
    root_directory: String,
    default_headers: Option<Vec<(String, String)>>,
    security: Option<SecurityConfig>,
    status_pages: Option<HashMap<u16, String>>,
    enable_logging: bool,
    paths: Option<Vec<Box<dyn path::PathConfig>>>,
}

impl View for VirtualHostConfigBuilder {
    type V = VirtualHostView;

    closed spec fn view(&self) -> VirtualHostView {
        VirtualHostView {
            hostname: self.hostname@,
            port: self.port,
            root_directory: self.root_directory@,
            default_headers: opt_pair_seq(self.default_headers),
            security: opt_security(self.security),
            status_pages: self.status_pages,
            enable_logging: self.enable_logging,
            has_paths: self.paths is Some,
        }
    }
}

impl VirtualHostConfigBuilder {
    /// No setter gives a builder paths: every builder holds none.
    #[verifier::type_invariant]
    spec fn well_formed(&self) -> bool {
        self.paths is None
    }

    pub fn hostname(self, hostname: &str) -> (r: Self)
        ensures
            r@ == (VirtualHostView { hostname: hostname@, ..self@ }),
    {
        proof {
            use_type_invariant(&self);
        }
        VirtualHostConfigBuilder { hostname: hostname.to_string(), ..self }
    }

    pub fn port(self, port: u16) -> (r: Self)
        ensures
            r@ == (VirtualHostView { port, ..self@ }),
    {
        proof {
            use_type_invariant(&self);
        }
        VirtualHostConfigBuilder { port, ..self }
    }

    pub fn root_directory(self, root_directory: &str) -> (r: Self)
        ensures
            r@ == (VirtualHostView { root_directory: root_directory@, ..self@ }),
    {
        proof {
            use_type_invariant(&self);
        }
        VirtualHostConfigBuilder { root_directory: root_directory.to_string(), ..self }
    }

    /// Appends a header that every response of the host carries.
    pub fn header(self, key: &str, value: &str) -> (r: Self)
        ensures
            r@ == (VirtualHostView {
                default_headers: with_header(self@.default_headers, key@, value@),
                ..self@
            }),
    {
        proof {
            use_type_invariant(&self);
        }
        let headers = push_header(self.default_headers, key, value);
        VirtualHostConfigBuilder { default_headers: headers, ..self }
    }

    pub fn security(self, security: SecurityConfig) -> (r: Self)
        ensures
            r@ == (VirtualHostView { security: Some(security@), ..self@ }),
    {
        proof {
            use_type_invariant(&self);
        }
        VirtualHostConfigBuilder { security: Some(security), ..self }
    }

    pub fn status_pages(self, status_pages: HashMap<u16, String>) -> (r: Self)
        ensures
            r@ == (VirtualHostView { status_pages: Some(status_pages), ..self@ }),
    {
        proof {
            use_type_invariant(&self);
        }
        VirtualHostConfigBuilder { status_pages: Some(status_pages), ..self }
    }

    pub fn enable_logging(self, logging: bool) -> (r: Self)
        ensures
            r@ == (VirtualHostView { enable_logging: logging, ..self@ }),
    {
        proof {
            use_type_invariant(&self);
        }
        VirtualHostConfigBuilder { enable_logging: logging, ..self }
    }

    /// Builds the configuration once it is known whether the document root exists.
    pub fn build_checked(self, root_exists: bool) -> (r: Result<VirtualHostConfig, VetisError>)
        ensures
            self@.hostname.len() == 0 ==> (r matches Err(
                VetisError::Config(ConfigError::VirtualHost(m)),
            ) && m@ == "Missing hostname"@),
            self@.hostname.len() != 0 && self@.root_directory.len() == 0 ==> (r matches Err(
                VetisError::Config(ConfigError::VirtualHost(m)),
            ) && m@ == "Missing root directory"@),
            self@.hostname.len() != 0 && self@.root_directory.len() != 0 && !root_exists ==> (
            r matches Err(VetisError::Config(ConfigError::VirtualHost(m))) && m@
                == "root_directory does not exist: "@ + self@.root_directory),
            self@.hostname.len() != 0 && self@.root_directory.len() != 0 && root_exists ==> (
            r matches Ok(c) && c@ == self@),
    {
        proof {
            use_type_invariant(&self);
        }
        if self.hostname.as_str().is_empty() {
            return Err(VetisError::Config(ConfigError::VirtualHost("Missing hostname".to_string())));
        }
        if self.root_directory.as_str().is_empty() {
            return Err(
                VetisError::Config(ConfigError::VirtualHost("Missing root directory".to_string())),
            );
        }
        if !root_exists {
            let mut msg = "root_directory does not exist: ".to_string();
            msg.append(self.root_directory.as_str());
            return Err(VetisError::Config(ConfigError::VirtualHost(msg)));
        }
        Ok(
            VirtualHostConfig {
                hostname: self.hostname,
                port: self.port,
                root_directory: self.root_directory,
                default_headers: self.default_headers,
                security: self.security,
                status_pages: self.status_pages,
                enable_logging: self.enable_logging,
                paths: self.paths,
            },
        )
    }

    /// Checks that a host name and a document root are given and that the root exists.
    pub fn build(self) -> (r: Result<VirtualHostConfig, VetisError>)
        ensures
            self@.hostname.len() == 0 ==> (r matches Err(
                VetisError::Config(ConfigError::VirtualHost(m)),
            ) && m@ == "Missing hostname"@),
            self@.hostname.len() != 0 && self@.root_directory.len() == 0 ==> (r matches Err(
                VetisError::Config(ConfigError::VirtualHost(m)),
            ) && m@ == "Missing root directory"@),
            self@.hostname.len() != 0 && self@.root_directory.len() != 0 ==> (r matches Ok(c) && c@
                == self@) || (r matches Err(VetisError::Config(ConfigError::VirtualHost(m))) && m@
                == "root_directory does not exist: "@ + self@.root_directory),
    {
        let root_exists = if self.hostname.as_str().is_empty() || self.root_directory.as_str().is_empty() {
            false
        } else {
            file_exists(self.root_directory.as_str())
        };
        self.build_checked(root_exists)
    }
}

/// Settings of a virtual host.
pub struct VirtualHostConfig {
    hostname: String,
    port: u16,
    root_directory: String,
    default_headers: Option<Vec<(String, String)>>,
    security: Option<SecurityConfig>,
    status_pages: Option<HashMap<u16, String>>,
    enable_logging: bool,
    paths: Option<Vec<Box<dyn path::PathConfig>>>,
}

impl View for VirtualHostConfig {
    type V = VirtualHostView;

    closed spec fn view(&self) -> VirtualHostView {
        VirtualHostView {
            hostname: self.hostname@,
            port: self.port,
            root_directory: self.root_directory@,
            default_headers: opt_pair_seq(self.default_headers),
            security: opt_security(self.security),
            status_pages: self.status_pages,
            enable_logging: self.enable_logging,
            has_paths: self.paths is Some,
        }
    }
}

impl VirtualHostConfig {
    /// A built virtual host has a host name and a document root, and no paths: nothing
    /// gives a configuration paths.
    #[verifier::type_invariant]
    spec fn well_formed(&self) -> bool {
        self.hostname@.len() > 0 && self.root_directory@.len() > 0 && self.paths is None
    }

    /// A builder for `localhost` on port 80 serving `/var/vetis/www`, with logging enabled.
    pub fn builder() -> (r: VirtualHostConfigBuilder)
        ensures
            r@ == (VirtualHostView {
                hostname: "localhost"@,
                port: 80,
                root_directory: "/var/vetis/www"@,
                default_headers: None,
                security: None,
                status_pages: None,
                enable_logging: true,
                has_paths: false,
            }),
    {
        VirtualHostConfigBuilder {
            hostname: "localhost".to_string(),
            port: 80,
            root_directory: "/var/vetis/www".to_string(),
            default_headers: None,
            security: None,
            status_pages: None,
            enable_logging: true,
            paths: None,
        }
    }

    pub fn hostname(&self) -> (r: &str)
        ensures
            r@ == self@.hostname,
            r@.len() > 0,
    {
        proof {
            use_type_invariant(self);
        }
        self.hostname.as_str()
    }

    pub fn port(&self) -> (r: u16)
        ensures
            r == self@.port,
    {
        self.port
    }

    pub fn root_directory(&self) -> (r: &str)
        ensures
            r@ == self@.root_directory,
            r@.len() > 0,
    {
        proof {
            use_type_invariant(self);
        }
        self.root_directory.as_str()
    }

    pub fn default_headers(&self) -> (r: &Option<Vec<(String, String)>>)
        ensures
            opt_pair_seq(*r) == self@.default_headers,
    {
        &self.default_headers
    }

    pub fn security(&self) -> (r: &Option<SecurityConfig>)
        ensures
            opt_security(*r) == self@.security,
    {
        &self.security
    }

    pub fn status_pages(&self) -> (r: &Option<HashMap<u16, String>>)
        ensures
            *r == self@.status_pages,
    {
        &self.status_pages
    }

    pub fn enable_logging(&self) -> (r: bool)
        ensures
            r == self@.enable_logging,
    {
        self.enable_logging
    }

    pub fn paths(&self) -> (r: &Option<Vec<Box<dyn path::PathConfig>>>)
        ensures
            r is Some == self@.has_paths,
            r is None,
    {
        proof {
            use_type_invariant(self);
        }
        &self.paths
    }

    /// Whether the host is served over TLS.
    pub fn is_secure(&self) -> (r: bool)
        ensures
            r == self@.security is Some,
    {
        self.security.is_some()
    }
}

} // verus!
