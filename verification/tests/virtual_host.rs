use std::collections::HashMap;
use vetis::errors::{ConfigError, VetisError};
use vetis::security::SecurityConfig;
use vetis::virtual_host::VirtualHostConfig;

/// A directory that exists wherever the tests run.
const ROOT: &str = "src";

#[test]
fn test_virtual_host_config_build_success() {
    let root_dir = ROOT;

    let config = VirtualHostConfig::builder()
        .hostname("example.com")
        .root_directory(
            root_dir,
        )
        .build()
        .unwrap();

    assert_eq!(config.hostname(), "example.com");
    assert_eq!(config.port(), 80);
    assert_eq!(
        config.root_directory(),
        root_dir
    );
    assert!(config
        .default_headers()
        .is_none());
    assert!(config
        .security()
        .is_none());
    assert!(config
        .status_pages()
        .is_none());
    assert!(config.enable_logging());
}

#[test]
fn test_virtual_host_config_build_with_port() {
    let root_dir = ROOT;

    let config = VirtualHostConfig::builder()
        .hostname("example.com")
        .port(443)
        .root_directory(
            root_dir,
        )
        .build()
        .unwrap();

    assert_eq!(config.port(), 443);
}

#[test]
fn test_virtual_host_config_build_with_header() {
    let root_dir = ROOT;

    let config = VirtualHostConfig::builder()
        .hostname("example.com")
        .root_directory(
            root_dir,
        )
        .header("X-Custom", "value")
        .build()
        .unwrap();

    assert!(config
        .default_headers()
        .is_some());
    let headers = config
        .default_headers()
        .as_ref()
        .unwrap();
    assert_eq!(headers.len(), 1);
    assert_eq!(headers[0], (String::from("X-Custom"), String::from("value")));
}

#[test]
fn test_virtual_host_config_build_with_multiple_headers() {
    let root_dir = ROOT;

    let config = VirtualHostConfig::builder()
        .hostname("example.com")
        .root_directory(
            root_dir,
        )
        .header("X-Custom-1", "value1")
        .header("X-Custom-2", "value2")
        .build()
        .unwrap();

    assert!(config
        .default_headers()
        .is_some());
    let headers = config
        .default_headers()
        .as_ref()
        .unwrap();
    assert_eq!(headers.len(), 2);
    assert_eq!(headers[0], (String::from("X-Custom-1"), String::from("value1")));
    assert_eq!(headers[1], (String::from("X-Custom-2"), String::from("value2")));
}

#[test]
fn test_virtual_host_config_build_with_security() {
    let root_dir = ROOT;

    let security = SecurityConfig::builder()
        .cert_from_bytes(vec![1, 2, 3])
        .key_from_bytes(vec![4, 5, 6])
        .build()
        .unwrap();

    let config = VirtualHostConfig::builder()
        .hostname("example.com")
        .root_directory(
            root_dir,
        )
        .security(security)
        .build()
        .unwrap();

    assert!(config
        .security()
        .is_some());
}

#[test]
fn test_virtual_host_config_build_with_status_pages() {
    let root_dir = ROOT;

    let mut status_pages = HashMap::new();
    status_pages.insert(404, String::from("404.html"));
    status_pages.insert(500, String::from("500.html"));

    let config = VirtualHostConfig::builder()
        .hostname("example.com")
        .root_directory(
            root_dir,
        )
        .status_pages(status_pages)
        .build()
        .unwrap();

    assert!(config
        .status_pages()
        .is_some());
    let pages = config
        .status_pages()
        .as_ref()
        .unwrap();
    assert_eq!(pages.len(), 2);
    assert_eq!(pages.get(&404), Some(&String::from("404.html")));
    assert_eq!(pages.get(&500), Some(&String::from("500.html")));
}

#[test]
fn test_virtual_host_config_build_with_logging_disabled() {
    let root_dir = ROOT;

    let config = VirtualHostConfig::builder()
        .hostname("example.com")
        .root_directory(
            root_dir,
        )
        .enable_logging(false)
        .build()
        .unwrap();

    assert!(!config.enable_logging());
}

#[test]
fn test_virtual_host_config_build_full() {
    let root_dir = ROOT;

    let security = SecurityConfig::builder()
        .cert_from_bytes(vec![1, 2, 3])
        .key_from_bytes(vec![4, 5, 6])
        .build()
        .unwrap();

    let mut status_pages = HashMap::new();
    status_pages.insert(404, String::from("404.html"));

    let config = VirtualHostConfig::builder()
        .hostname("example.com")
        .port(8443)
        .root_directory(
            root_dir,
        )
        .header("X-Custom", "value")
        .security(security)
        .status_pages(status_pages)
        .enable_logging(false)
        .build()
        .unwrap();

    assert_eq!(config.hostname(), "example.com");
    assert_eq!(config.port(), 8443);
    assert_eq!(
        config.root_directory(),
        root_dir
    );
    assert!(config
        .default_headers()
        .is_some());
    assert!(config
        .security()
        .is_some());
    assert!(config
        .status_pages()
        .is_some());
    assert!(!config.enable_logging());
}

#[test]
fn test_virtual_host_config_build_missing_hostname() {
    let root_dir = ROOT;

    let result = VirtualHostConfig::builder()
        .hostname("")
        .root_directory(
            root_dir,
        )
        .build();

    assert!(result.is_err());
    match result {
        Err(VetisError::Config(ConfigError::VirtualHost(msg))) => {
            assert_eq!(msg, "Missing hostname");
        }
        _ => panic!("Expected ConfigError::VirtualHost"),
    }
}

#[test]
fn test_virtual_host_config_build_missing_root_directory() {
    let result = VirtualHostConfig::builder()
        .hostname("example.com")
        .root_directory("")
        .build();

    assert!(result.is_err());
    match result {
        Err(VetisError::Config(ConfigError::VirtualHost(msg))) => {
            assert_eq!(msg, "Missing root directory");
        }
        _ => panic!("Expected ConfigError::VirtualHost"),
    }
}

#[test]
fn test_virtual_host_config_build_nonexistent_root_directory() {
    let result = VirtualHostConfig::builder()
        .hostname("example.com")
        .root_directory("/nonexistent/path/to/root")
        .build();

    assert!(result.is_err());
    match result {
        Err(VetisError::Config(ConfigError::VirtualHost(msg))) => {
            assert!(msg.contains("root_directory does not exist"));
        }
        _ => panic!("Expected ConfigError::VirtualHost"),
    }
}

#[test]
fn test_virtual_host_config_hostname_getter() {
    let root_dir = ROOT;

    let config = VirtualHostConfig::builder()
        .hostname("api.example.com")
        .root_directory(
            root_dir,
        )
        .build()
        .unwrap();

    assert_eq!(config.hostname(), "api.example.com");
}

#[test]
fn test_virtual_host_config_port_getter() {
    let root_dir = ROOT;

    let config = VirtualHostConfig::builder()
        .hostname("example.com")
        .port(8080)
        .root_directory(
            root_dir,
        )
        .build()
        .unwrap();

    assert_eq!(config.port(), 8080);
}

#[test]
fn test_virtual_host_config_root_directory_getter() {
    let root_dir = ROOT;

    let config = VirtualHostConfig::builder()
        .hostname("example.com")
        .root_directory(
            root_dir,
        )
        .build()
        .unwrap();

    assert_eq!(
        config.root_directory(),
        root_dir
    );
}

#[test]
fn test_virtual_host_config_default_headers_getter_none() {
    let root_dir = ROOT;

    let config = VirtualHostConfig::builder()
        .hostname("example.com")
        .root_directory(
            root_dir,
        )
        .build()
        .unwrap();

    assert!(config
        .default_headers()
        .is_none());
}

#[test]
fn test_virtual_host_config_default_headers_getter_some() {
    let root_dir = ROOT;

    let config = VirtualHostConfig::builder()
        .hostname("example.com")
        .root_directory(
            root_dir,
        )
        .header("X-Test", "test-value")
        .build()
        .unwrap();

    assert!(config
        .default_headers()
        .is_some());
}

#[test]
fn test_virtual_host_config_security_getter_none() {
    let root_dir = ROOT;

    let config = VirtualHostConfig::builder()
        .hostname("example.com")
        .root_directory(
            root_dir,
        )
        .build()
        .unwrap();

    assert!(config
        .security()
        .is_none());
}

#[test]
fn test_virtual_host_config_security_getter_some() {
    let root_dir = ROOT;

    let security = SecurityConfig::builder()
        .cert_from_bytes(vec![1, 2, 3])
        .key_from_bytes(vec![4, 5, 6])
        .build()
        .unwrap();

    let config = VirtualHostConfig::builder()
        .hostname("example.com")
        .root_directory(
            root_dir,
        )
        .security(security)
        .build()
        .unwrap();

    assert!(config
        .security()
        .is_some());
}

#[test]
fn test_virtual_host_config_status_pages_getter_none() {
    let root_dir = ROOT;

    let config = VirtualHostConfig::builder()
        .hostname("example.com")
        .root_directory(
            root_dir,
        )
        .build()
        .unwrap();

    assert!(config
        .status_pages()
        .is_none());
}

#[test]
fn test_virtual_host_config_status_pages_getter_some() {
    let root_dir = ROOT;

    let mut status_pages = HashMap::new();
    status_pages.insert(404, String::from("404.html"));

    let config = VirtualHostConfig::builder()
        .hostname("example.com")
        .root_directory(
            root_dir,
        )
        .status_pages(status_pages)
        .build()
        .unwrap();

    assert!(config
        .status_pages()
        .is_some());
}

#[test]
fn test_virtual_host_config_enable_logging_getter_true() {
    let root_dir = ROOT;

    let config = VirtualHostConfig::builder()
        .hostname("example.com")
        .root_directory(
            root_dir,
        )
        .enable_logging(true)
        .build()
        .unwrap();

    assert!(config.enable_logging());
}

#[test]
fn test_virtual_host_config_enable_logging_getter_false() {
    let root_dir = ROOT;

    let config = VirtualHostConfig::builder()
        .hostname("example.com")
        .root_directory(
            root_dir,
        )
        .enable_logging(false)
        .build()
        .unwrap();

    assert!(!config.enable_logging());
}

#[test]
fn test_virtual_host_config_paths_getter_none() {
    let root_dir = ROOT;

    let config = VirtualHostConfig::builder()
        .hostname("example.com")
        .root_directory(
            root_dir,
        )
        .build()
        .unwrap();

    assert!(config
        .paths()
        .is_none());
}

#[test]
fn test_virtual_host_config_builder_default_hostname() {
    let root_dir = ROOT;

    let config = VirtualHostConfig::builder()
        .root_directory(
            root_dir,
        )
        .build()
        .unwrap();

    assert_eq!(config.hostname(), "localhost");
}

#[test]
fn test_virtual_host_config_builder_default_port() {
    let root_dir = ROOT;

    let config = VirtualHostConfig::builder()
        .hostname("example.com")
        .root_directory(
            root_dir,
        )
        .build()
        .unwrap();

    assert_eq!(config.port(), 80);
}

#[test]
fn test_virtual_host_config_builder_default_logging() {
    let root_dir = ROOT;

    let config = VirtualHostConfig::builder()
        .hostname("example.com")
        .root_directory(
            root_dir,
        )
        .build()
        .unwrap();

    assert!(config.enable_logging());
}

#[test]
fn test_virtual_host_config_builder_chain() {
    let root_dir = ROOT;

    let security = SecurityConfig::builder()
        .cert_from_bytes(vec![1, 2, 3])
        .key_from_bytes(vec![4, 5, 6])
        .build()
        .unwrap();

    let mut status_pages = HashMap::new();
    status_pages.insert(404, String::from("404.html"));

    let config = VirtualHostConfig::builder()
        .hostname("example.com")
        .port(8443)
        .root_directory(
            root_dir,
        )
        .header("X-Custom-1", "value1")
        .header("X-Custom-2", "value2")
        .security(security)
        .status_pages(status_pages)
        .enable_logging(false)
        .build()
        .unwrap();

    assert_eq!(config.hostname(), "example.com");
    assert_eq!(config.port(), 8443);
    assert_eq!(
        config.root_directory(),
        root_dir
    );
    assert!(config
        .default_headers()
        .is_some());
    assert!(config
        .security()
        .is_some());
    assert!(config
        .status_pages()
        .is_some());
    assert!(!config.enable_logging());
}
