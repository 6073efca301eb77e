//! Basic authentication of requests.
pub use crate::config::auth::{Algorithm, Auth, AuthConfig, BasicAuthConfig, BasicAuthConfigBuilder};
