//! Host configuration: the host name, its document root, default response headers, TLS
//! settings, status pages, logging and paths.
use vstd::prelude::*;

use std::collections::HashMap;
use std::path::PathBuf;

use crate::errors::{ConfigError, VetisError};
use crate::model::{opt_pair_seq, push_header, with_header};
use crate::security::{SecurityConfig, SecurityView};
use crate::std_types::{path_exists, path_from, path_of};

pub mod path;

verus! {

broadcast use vstd::string::group_string_axioms;

/// The `Debug` rendering of a path (`format!("{:?}", path)`).
pub uninterp spec fn path_debug(p: PathBuf) -> Seq<char>;

/// Renders a path with `Debug`.
#[verifier::external_body]
pub(crate) fn path_debug_text(p: &PathBuf) -> (r: String)
    ensures
        r@ == path_debug(*p),
{
    format!("{:?}", p)
}

pub open spec fn opt_security(o: Option<SecurityConfig>) -> Option<SecurityView> {
    match o {
        Some(s) => Some(s@),
        None => None,
    }
}

/// Abstract content of a host configuration (the configured paths excepted).
pub struct HostView {
    pub hostname: Seq<char>,
    pub root_directory: Option<PathBuf>,
    pub default_headers: Option<Seq<(Seq<char>, Seq<char>)>>,
    pub security: Option<SecurityView>,
    pub status_pages: Option<HashMap<u16, String>>,
    pub enable_logging: bool,
    pub has_paths: bool,
}

/// A host named `hostname`, with the given document root and nothing else configured.
pub open spec fn plain_host(hostname: Seq<char>, root_directory: Option<PathBuf>) -> HostView {
    HostView {
        hostname,
        root_directory,
        default_headers: None,
        security: None,
        status_pages: None,
        enable_logging: true,
        has_paths: false,
    }
}

/// Collects the settings of a host.
pub struct HostConfigBuilder {
    hostname: String,
    root_directory: Option<PathBuf>,
    default_headers: Option<Vec<(String, String)>>,
    security: Option<SecurityConfig>,
    status_pages: Option<HashMap<u16, String>>,
    enable_logging: bool,
    paths: Option<Vec<Box<dyn path::PathConfig>>>,
}

impl View for HostConfigBuilder {
    type V = HostView;

    closed spec fn view(&self) -> HostView {
        HostView {
            hostname: self.hostname@,
            root_directory: self.root_directory,
            default_headers: opt_pair_seq(self.default_headers),
            security: opt_security(self.security),
            status_pages: self.status_pages,
            enable_logging: self.enable_logging,
            has_paths: self.paths is Some,
        }
    }
}

impl HostConfigBuilder {
    /// No setter gives a builder paths: every builder holds none.
    #[verifier::type_invariant]
    spec fn well_formed(&self) -> bool {
        self.paths is None
    }

    pub fn hostname(self, hostname: &str) -> (r: Self)
        ensures
            r@ == (HostView { hostname: hostname@, ..self@ }),
    {
        proof {
            use_type_invariant(&self);
        }
        HostConfigBuilder { hostname: hostname.to_string(), ..self }
    }

    pub fn root_directory(self, root_directory: PathBuf) -> (r: Self)
        ensures
            r@ == (HostView { root_directory: Some(root_directory), ..self@ }),
    {
        proof {
            use_type_invariant(&self);
        }
        HostConfigBuilder { root_directory: Some(root_directory), ..self }
    }

    /// Appends a header that every response of the host carries.
    pub fn header(self, key: &str, value: &str) -> (r: Self)
        ensures
            r@ == (HostView {
                default_headers: with_header(self@.default_headers, key@, value@),
                ..self@
            }),
    {
        proof {
            use_type_invariant(&self);
        }
        let headers = push_header(self.default_headers, key, value);
        HostConfigBuilder { default_headers: headers, ..self }
    }

    pub fn security(self, security: SecurityConfig) -> (r: Self)
        ensures
            r@ == (HostView { security: Some(security@), ..self@ }),
    {
        proof {
            use_type_invariant(&self);
        }
        HostConfigBuilder { security: Some(security), ..self }
    }

    pub fn status_pages(self, status_pages: HashMap<u16, String>) -> (r: Self)
        ensures
            r@ == (HostView { status_pages: Some(status_pages), ..self@ }),
    {
        proof {
            use_type_invariant(&self);
        }
        HostConfigBuilder { status_pages: Some(status_pages), ..self }
    }

    pub fn enable_logging(self, logging: bool) -> (r: Self)
        ensures
            r@ == (HostView { enable_logging: logging, ..self@ }),
    {
        proof {
            use_type_invariant(&self);
        }
        HostConfigBuilder { enable_logging: logging, ..self }
    }

    /// Builds the configuration once it is known whether the document root exists.
    pub fn build_checked(self, root_exists: bool) -> (r: Result<HostConfig, VetisError>)
        ensures
            self@.hostname.len() == 0 ==> (r matches Err(VetisError::Config(ConfigError::Host(m)))
                && m@ == "Missing hostname"@),
            self@.hostname.len() != 0 && self@.root_directory is Some && !root_exists ==> (
            r matches Err(VetisError::Config(ConfigError::Host(m))) && m@
                == "root_directory does not exist: "@ + path_debug(self@.root_directory->0)),
            self@.hostname.len() != 0 && (self@.root_directory is None || root_exists) ==> (
            r matches Ok(c) && c@ == self@),
    {
        proof {
            use_type_invariant(&self);
        }
        if self.hostname.as_str().is_empty() {
            return Err(VetisError::Config(ConfigError::Host("Missing hostname".to_string())));
        }
        if let Some(root_dir) = &self.root_directory {
            if !root_exists {
                let mut msg = "root_directory does not exist: ".to_string();
                let shown = path_debug_text(root_dir);
                msg.append(shown.as_str());
                return Err(VetisError::Config(ConfigError::Host(msg)));
            }
        }
        Ok(
            HostConfig {
                hostname: self.hostname,
                root_directory: self.root_directory,
                default_headers: self.default_headers,
                security: self.security,
                status_pages: self.status_pages,
                enable_logging: self.enable_logging,
                paths: self.paths,
            },
        )
    }

    /// Checks that a host name is given and that the document root, when given, exists.
    pub fn build(self) -> (r: Result<HostConfig, VetisError>)
        ensures
            self@.hostname.len() == 0 ==> (r matches Err(VetisError::Config(ConfigError::Host(m)))
                && m@ == "Missing hostname"@),
            self@.hostname.len() != 0 && self@.root_directory is None ==> (r matches Ok(c) && c@
                == self@),
            self@.hostname.len() != 0 && self@.root_directory is Some ==> (r matches Ok(c) && c@
                == self@) || (r matches Err(VetisError::Config(ConfigError::Host(m))) && m@
                == "root_directory does not exist: "@ + path_debug(self@.root_directory->0)),
    {
        let root_exists = match &self.root_directory {
            Some(d) => path_exists(d),
            None => true,
        };
        self.build_checked(root_exists)
    }
}

/// Settings of a host.
pub struct HostConfig {
    hostname: String,
    root_directory: Option<PathBuf>,
    default_headers: Option<Vec<(String, String)>>,
    security: Option<SecurityConfig>,
    status_pages: Option<HashMap<u16, String>>,
    enable_logging: bool,
    paths: Option<Vec<Box<dyn path::PathConfig>>>,
}

impl View for HostConfig {
    type V = HostView;

    closed spec fn view(&self) -> HostView {
        HostView {
            hostname: self.hostname@,
            root_directory: self.root_directory,
            default_headers: opt_pair_seq(self.default_headers),
            security: opt_security(self.security),
            status_pages: self.status_pages,
            enable_logging: self.enable_logging,
            has_paths: self.paths is Some,
        }
    }
}

impl HostConfig {
    /// Nothing gives a configuration paths: every configuration holds none.
    #[verifier::type_invariant]
    spec fn well_formed(&self) -> bool {
        self.paths is None
    }

    /// A builder for `localhost` with no document root, logging enabled and nothing else.
    pub fn builder() -> (r: HostConfigBuilder)
        ensures
            r@ == plain_host("localhost"@, None),
    {
        HostConfigBuilder {
            hostname: "localhost".to_string(),
            root_directory: None,
            default_headers: None,
            security: None,
            status_pages: None,
            enable_logging: true,
            paths: None,
        }
    }

    pub fn hostname(&self) -> (r: &str)
        ensures
            r@ == self@.hostname,
    {
        self.hostname.as_str()
    }

    pub fn root_directory(&self) -> (r: &Option<PathBuf>)
        ensures
            *r == self@.root_directory,
    {
        &self.root_directory
    }

    pub fn default_headers(&self) -> (r: &Option<Vec<(String, String)>>)
        ensures
            opt_pair_seq(*r) == self@.default_headers,
    {
        &self.default_headers
    }

    pub fn security(&self) -> (r: &Option<SecurityConfig>)
        ensures
            opt_security(*r) == self@.security,
    {
        &self.security
    }

    pub fn status_pages(&self) -> (r: &Option<HashMap<u16, String>>)
        ensures
            *r == self@.status_pages,
    {
        &self.status_pages
    }

    pub fn enable_logging(&self) -> (r: bool)
        ensures
            r == self@.enable_logging,
    {
        self.enable_logging
    }

    pub fn paths(&self) -> (r: &Option<Vec<Box<dyn path::PathConfig>>>)
        ensures
            r is Some == self@.has_paths,
            r is None,
    {
        proof {
            use_type_invariant(self);
        }
        &self.paths
    }
}

impl Default for HostConfig {
    fn default() -> (r: Self)
        ensures
            r@ == plain_host("localhost"@, None),
    {
        HostConfig {
            hostname: "localhost".to_string(),
            root_directory: None,
            default_headers: None,
            security: None,
            status_pages: None,
            enable_logging: true,
            paths: None,
        }
    }
}

impl From<&str> for HostConfig {
    /// A host named `hostname` with nothing else configured.
    fn from(hostname: &str) -> (r: Self)
        ensures
            r@ == plain_host(hostname@, None),
    {
        HostConfig {
            hostname: hostname.to_string(),
            root_directory: None,
            default_headers: None,
            security: None,
            status_pages: None,
            enable_logging: true,
            paths: None,
        }
    }
}

impl vstd::std_specs::convert::FromSpecImpl<&str> for HostConfig {
    open spec fn obeys_from_spec() -> bool {
        false
    }

    open spec fn from_spec(v: &str) -> Self {
        arbitrary()
    }
}

impl From<(&str, &str)> for HostConfig {
    /// A host named by the first string, whose document root is the second.
    fn from(value: (&str, &str)) -> (r: Self)
        ensures
            r@ == plain_host(value.0@, Some(path_of(value.1@))),
    {
        let (hostname, root_directory) = value;
        HostConfig {
            hostname: hostname.to_string(),
            root_directory: Some(path_from(root_directory)),
            default_headers: None,
            security: None,
            status_pages: None,
            enable_logging: true,
            paths: None,
        }
    }
}

impl vstd::std_specs::convert::FromSpecImpl<(&str, &str)> for HostConfig {
    open spec fn obeys_from_spec() -> bool {
        false
    }

    open spec fn from_spec(v: (&str, &str)) -> Self {
        arbitrary()
    }
}

} // verus!
