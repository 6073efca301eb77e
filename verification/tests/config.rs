use std::collections::HashMap;
use std::path::PathBuf;
use std::time::Duration;
use vetis::cache::{CacheConfig, DEFAULT_CAPACITY, MAX_FILE_SIZE};
use vetis::config::server::virtual_host::path::interface::{InterfacePathConfig, InterfaceType};
use vetis::config::{ListenerConfig, Protocol, ProxyPathConfig, ServerConfig, StaticPathConfig, VirtualHostConfig};
use vetis::errors::{ConfigError, VetisError};
use vetis::security::SecurityConfigFromFile;

fn path_err(msg: &str) -> VetisError {
    VetisError::Config(ConfigError::Path(msg.to_string()))
}

#[test]
fn test_config_listener_defaults_and_errors() {
    let l = ListenerConfig::builder().build().unwrap();
    assert_eq!(l.port(), 80);
    assert_eq!(l.protocol(), &Protocol::Http1);
    assert_eq!(l.interface(), "0.0.0.0");
    let l = ListenerConfig::builder().port(8443).protocol(Protocol::Http2).interface("::1").build().unwrap();
    assert_eq!((l.port(), *l.protocol(), l.interface()), (8443, Protocol::Http2, "::1"));
    assert_eq!(
        ListenerConfig::builder().port(0).build().err(),
        Some(ConfigError::Listener("Port cannot be 0".to_string()))
    );
    assert_eq!(
        ListenerConfig::builder().interface("").build().err(),
        Some(ConfigError::Listener("Interface cannot be empty".to_string()))
    );
}

#[test]
fn test_config_server_needs_a_listener() {
    assert_eq!(
        ServerConfig::builder().build().err(),
        Some(ConfigError::Server("No listeners configured".to_string()))
    );
    let l = ListenerConfig::builder().build().unwrap();
    let s = ServerConfig::builder().add_listener(l.clone()).add_listener(l).build().unwrap();
    assert_eq!(s.listeners().len(), 2);
}

#[test]
fn test_config_virtual_host_errors() {
    let r = VirtualHostConfig::builder().hostname("").build();
    assert_eq!(r.err(), Some(VetisError::Config(ConfigError::VirtualHost("hostname is not provided".to_string()))));
    let r = VirtualHostConfig::builder().root_directory("").build();
    assert_eq!(
        r.err(),
        Some(VetisError::Config(ConfigError::VirtualHost("root_directory is not provided".to_string())))
    );
    let r = VirtualHostConfig::builder().root_directory("/nonexistent/vetis").build();
    assert_eq!(
        r.err(),
        Some(VetisError::Config(ConfigError::VirtualHost(
            "root_directory does not exist: /nonexistent/vetis".to_string()
        )))
    );
    let c = VirtualHostConfig::builder()
        .hostname("example.com")
        .root_directory("src")
        .header("X-A", "1")
        .static_paths(vec![StaticPathConfig::builder().build().unwrap()])
        .build()
        .unwrap();
    assert_eq!(c.hostname(), "example.com");
    assert_eq!(c.default_headers(), &Some(vec![("X-A".to_string(), "1".to_string())]));
    assert_eq!(c.static_paths().as_ref().map(|v| v.len()), Some(1));
    assert!(c.proxy_paths().is_none());
}

#[test]
fn test_config_path_builders() {
    let s = StaticPathConfig::builder().build().unwrap();
    assert_eq!((s.uri(), s.extensions(), s.directory()), ("/", ".html", "."));
    assert_eq!(StaticPathConfig::builder().uri("").build().err(), Some(path_err("URI cannot be empty")));
    assert_eq!(
        StaticPathConfig::builder().extensions("").build().err(),
        Some(path_err("Extensions cannot be empty"))
    );
    assert_eq!(
        StaticPathConfig::builder().directory("").build().err(),
        Some(path_err("Directory cannot be empty"))
    );
    let p = ProxyPathConfig::builder().build().unwrap();
    assert_eq!((p.uri(), p.target()), ("/test", "http://localhost:8080"));
    assert_eq!(ProxyPathConfig::builder().uri("").build().err(), Some(path_err("URI cannot be empty")));
    assert_eq!(ProxyPathConfig::builder().target("").build().err(), Some(path_err("Target cannot be empty")));
}

#[test]
fn test_interface_path_builder() {
    let b = InterfacePathConfig::builder().directory("src").target("lib:app");
    assert_eq!(b.module_file(), Some(PathBuf::from("src").join("lib.py")));
    assert_eq!(b.build().err(), Some(path_err("Module file does not exist")));
    let c = InterfacePathConfig::builder()
        .uri("/php")
        .directory("src")
        .target("index")
        .interface_type(InterfaceType::Php)
        .build()
        .unwrap();
    assert_eq!((c.uri(), c.directory(), c.target()), ("/php", "src", "index"));
    assert_eq!(c.interface_type(), &InterfaceType::Php);
    assert!(c.params().is_none());
    assert_eq!(
        InterfacePathConfig::builder().directory("src").target("main").build().err(),
        Some(path_err("Target must be in format 'module:application' for API interface type"))
    );
    assert_eq!(InterfacePathConfig::builder().uri("").build().err(), Some(path_err("URI cannot be empty")));
    assert_eq!(InterfacePathConfig::builder().directory("").build().err(), Some(path_err("Missing directory")));
    assert_eq!(
        InterfacePathConfig::builder().directory("/nonexistent/vetis").build().err(),
        Some(path_err("Directory does not exist"))
    );
    assert_eq!(
        InterfacePathConfig::builder().directory("src").target("").build().err(),
        Some(path_err("Missing target"))
    );
    let mut params = HashMap::new();
    params.insert("k".to_string(), "v".to_string());
    let c = InterfacePathConfig::builder()
        .directory("src")
        .target("app")
        .interface_type(InterfaceType::Ruby)
        .params(params.clone())
        .build()
        .unwrap();
    assert_eq!(c.params(), &Some(params.clone()));
    assert_eq!(c.clone().params(), &Some(params));
    let c = InterfacePathConfig::builder()
        .directory("src")
        .target("lib:app")
        .interface_type(InterfaceType::Rsgi)
        .build_checked(true, true)
        .unwrap();
    assert_eq!(c.interface_type(), &InterfaceType::Rsgi);
}

#[test]
fn test_cache_config_defaults() {
    let c = CacheConfig::default();
    assert_eq!(c.max_file_size(), MAX_FILE_SIZE);
    assert_eq!(MAX_FILE_SIZE, 10 * 1024 * 1024);
    assert_eq!(c.ttl(), Duration::from_secs(60));
    assert_eq!(c.tti(), Duration::from_secs(10));
    assert_eq!(c.capacity(), DEFAULT_CAPACITY);
    let c = CacheConfig::builder().max_file_size(1).ttl(Duration::from_secs(5)).tti(Duration::from_secs(2)).capacity(3).build();
    assert_eq!((c.max_file_size(), c.ttl(), c.tti(), c.capacity()), (1, Duration::from_secs(5), Duration::from_secs(2), 3));
}

#[test]
fn test_security_from_files() {
    let files = SecurityConfigFromFile {
        cert_from_file: "cert.pem".to_string(),
        key_from_file: "key.pem".to_string(),
        ca_cert_from_file: None,
        client_auth: Some(true),
    };
    let c = files.into_config(Some(vec![1]), Some(vec![2]), Some(vec![3])).unwrap();
    assert_eq!(c.cert(), &vec![1]);
    assert_eq!(c.key(), &vec![2]);
    assert_eq!(c.ca_cert(), &None);
    assert!(c.client_auth());
    assert_eq!(
        files.into_config(None, Some(vec![2]), None).err(),
        Some(VetisError::Config(ConfigError::Security("Missing certificate".to_string())))
    );
    assert_eq!(
        files.into_config(Some(vec![1]), Some(vec![]), None).err(),
        Some(VetisError::Config(ConfigError::Security("Missing key".to_string())))
    );
    let files = SecurityConfigFromFile { ca_cert_from_file: Some("ca.pem".to_string()), client_auth: None, ..files };
    let c = files.into_config(Some(vec![1]), Some(vec![2]), Some(vec![3])).unwrap();
    assert_eq!(c.ca_cert(), &Some(vec![3]));
    assert!(!c.client_auth());
}
