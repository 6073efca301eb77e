use vetis::errors::{VetisError, VirtualHostError};
use vetis::server::http::{header_value_valid, host_lookup, lookup_answer, select_default_headers, HostLookup};
use vetis::server::virtual_host::path::interface::php::sapi::{response_status, script_path};
use vetis::server::virtual_host::path::interface::python::rsgi::RsgiWorker;
use vetis::server::virtual_host::path::proxy::ProxyPath;
use vetis::config::ProxyPathConfig;
use vetis::Alpn;

const ALL: [Alpn; 8] = [
    Alpn::Http11,
    Alpn::H2,
    Alpn::H2c,
    Alpn::H3,
    Alpn::Dot,
    Alpn::Doh,
    Alpn::Doq,
    Alpn::AcmeTls1,
];

#[test]
fn test_alpn_identifiers() {
    assert_eq!(Alpn::Http11.protocol_id(), b"http/1.1".to_vec());
    assert_eq!(Alpn::AcmeTls1.protocol_id(), b"acme-tls/1".to_vec());
    assert_eq!(Alpn::from_protocol_id(b"h3"), Some(Alpn::H3));
    assert_eq!(Alpn::from_protocol_id(b"h4"), None);
    for a in ALL {
        assert_eq!(Alpn::from_protocol_id(&a.protocol_id()), Some(a));
    }
}

#[test]
fn test_alpn_names() {
    assert_eq!(Alpn::H2c.name(), "h2c");
    assert_eq!(Alpn::from_name("HTTP/1.1"), Some(Alpn::Http11));
    assert_eq!(Alpn::from_name("DoQ"), Some(Alpn::Doq));
    assert_eq!(Alpn::from_name("spdy"), None);
    for a in ALL {
        assert_eq!(Alpn::from_name(a.name()), Some(a));
        assert_eq!(Alpn::from_name(&a.name().to_uppercase()), Some(a));
    }
}

#[test]
fn test_default_header_selection() {
    let headers = vec![
        ("X-Good".to_string(), "yes".to_string()),
        ("Bad Name".to_string(), "v".to_string()),
        ("X-Ctl".to_string(), "a\u{7f}b".to_string()),
        ("X-Tab".to_string(), "a\tb".to_string()),
    ];
    assert_eq!(
        select_default_headers(&headers),
        vec![("X-Good".to_string(), "yes".to_string()), ("X-Tab".to_string(), "a\tb".to_string())]
    );
    assert!(header_value_valid("caf\u{e9}"));
    assert!(!header_value_valid("line\nbreak"));
}

#[test]
fn test_host_lookup_answers() {
    assert_eq!(host_lookup(false, true), HostLookup::MissingHost);
    assert_eq!(host_lookup(true, false), HostLookup::UnknownHost);
    assert_eq!(host_lookup(true, true), HostLookup::Known);
    assert_eq!(lookup_answer(HostLookup::MissingHost), Some((400, "Host not found in request")));
    assert_eq!(lookup_answer(HostLookup::UnknownHost), Some((502, "Host not found")));
    assert_eq!(lookup_answer(HostLookup::Known), None);
}

#[test]
fn test_proxy_target_url() {
    let proxy = ProxyPath::new(ProxyPathConfig::builder().uri("/api").target("http://backend:9000").build().unwrap());
    assert_eq!(proxy.uri(), "/api");
    assert_eq!(proxy.target_url("/users?id=1"), "http://backend:9000/users?id=1");
}

#[test]
fn test_php_status_and_script() {
    assert_eq!(response_status(200), Ok(200));
    assert_eq!(response_status(999), Ok(999));
    let invalid = Err(VetisError::VirtualHost(VirtualHostError::Interface("invalid status code".to_string())));
    assert_eq!(response_status(99), invalid);
    assert_eq!(response_status(1000), invalid);
    assert_eq!(script_path("/srv/app", "index"), std::path::Path::new("/srv/app").join("index.php"));
}

#[test]
fn test_rsgi_worker_settings() {
    let w = RsgiWorker::new("/srv".to_string(), "main:app".to_string());
    assert_eq!(w.directory(), "/srv");
    assert_eq!(w.target(), "main:app");
}

#[test]
fn test_header_name_rules() {
    let longest = "a".repeat(65535);
    let too_long = "a".repeat(65536);
    let headers = vec![
        (longest.clone(), "v".to_string()),
        (too_long, "v".to_string()),
        ("".to_string(), "v".to_string()),
        ("X-Caf\u{e9}".to_string(), "v".to_string()),
        ("x-~|`^_.-+*'&%$#!09".to_string(), "v".to_string()),
        ("a:b".to_string(), "v".to_string()),
    ];
    assert_eq!(
        select_default_headers(&headers),
        vec![(longest, "v".to_string()), ("x-~|`^_.-+*'&%$#!09".to_string(), "v".to_string())]
    );
}
