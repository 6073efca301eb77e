//! Configuration of what a server's virtual hosts serve.
pub mod virtual_host;
