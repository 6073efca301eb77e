//! Error types shared by the configuration builders and the request handlers.
use vstd::prelude::*;

verus! {

/// Failures while resolving or reading a file.
#[derive(Debug, Clone, PartialEq, Eq)]
pub enum FileError {
    NotFound,
    InvalidRange,
    InvalidMetadata,
}

/// Failures raised while a virtual host serves a request.
#[derive(Debug, Clone, PartialEq, Eq)]
pub enum VirtualHostError {
    Auth(String),
    File(FileError),
    Proxy(String),
    Interface(String),
}

/// Rejections of a configuration by its builder.
#[derive(Debug, Clone, PartialEq, Eq)]
pub enum ConfigError {
    Listener(String),
    Server(String),
    VirtualHost(String),
    Host(String),
    Path(String),
    Security(String),
    Auth(String),
}

/// Every error of the library.
#[derive(Debug, Clone, PartialEq, Eq)]
pub enum VetisError {
    Config(ConfigError),
    VirtualHost(VirtualHostError),
}

} // verus!
