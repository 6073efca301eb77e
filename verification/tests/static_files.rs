use vetis::errors::{FileError, VetisError, VirtualHostError};
use std::collections::HashMap;
use std::time::{Duration, SystemTime};
use vetis::auth::{Algorithm, BasicAuthConfig};
use vetis::server::virtual_host::path::static_files::{
    check_access, decimal_string, file_cache_settings, file_metadata, file_record, first_existing,
    keep_in_memory, memory_limit,
    metadata_headers, metadata_headers_with_date, mime_type_for, plan_static_request,
    range_outcome, select_index_file, static_action, RangeOutcome, StaticAction, StaticFile,
    StaticFileMetadata, DEFAULT_MEMORY_LIMIT,
};
use vetis::utils::date::format_date;
use vetis::virtual_host::path::static_files::{StaticPathCache, StaticPathConfig};

fn invalid() -> Result<RangeOutcome, VetisError> {
    Err(VetisError::VirtualHost(VirtualHostError::File(FileError::InvalidRange)))
}

#[test]
fn test_range_absent_serves_whole_file() {
    assert_eq!(range_outcome(None, 100), Ok(RangeOutcome::Full));
}

#[test]
fn test_range_partial() {
    assert_eq!(range_outcome(Some("bytes=0-10"), 100), Ok(RangeOutcome::Partial));
    assert_eq!(range_outcome(Some("bytes=+5-99"), 100), Ok(RangeOutcome::Partial));
}

#[test]
fn test_range_not_satisfiable() {
    assert_eq!(range_outcome(Some("bytes=20-10"), 100), Ok(RangeOutcome::NotSatisfiable));
    assert_eq!(range_outcome(Some("bytes=100-200"), 100), Ok(RangeOutcome::NotSatisfiable));
}

#[test]
fn test_range_edges_fall_back_to_full() {
    assert_eq!(range_outcome(Some("bytes=5-5"), 100), Ok(RangeOutcome::Full));
    assert_eq!(range_outcome(Some("bytes=0-100"), 100), Ok(RangeOutcome::Full));
}

#[test]
fn test_range_malformed() {
    assert_eq!(range_outcome(Some("bytes 0-10"), 100), invalid());
    assert_eq!(range_outcome(Some("items=0-10"), 100), invalid());
    assert_eq!(range_outcome(Some("bytes=0"), 100), invalid());
    assert_eq!(range_outcome(Some("bytes=-10"), 100), invalid());
    assert_eq!(range_outcome(Some("bytes=a-10"), 100), invalid());
    assert_eq!(range_outcome(Some("bytes=0-18446744073709551616"), 100), invalid());
    assert_eq!(range_outcome(Some("bytes=0-18446744073709551615"), 100), Ok(RangeOutcome::Full));
}

#[test]
fn test_static_action_decisions() {
    let missing = Err(VetisError::VirtualHost(VirtualHostError::File(FileError::NotFound)));
    assert_eq!(static_action(false, false, false, None, false), missing);
    assert_eq!(static_action(false, true, false, None, false), Ok(StaticAction::ServeFile));
    assert_eq!(static_action(false, true, false, None, true), Ok(StaticAction::ServeMetadata));
    assert_eq!(static_action(true, true, true, Some(true), false), Ok(StaticAction::ServeIndex));
    assert_eq!(static_action(true, false, false, Some(false), false), missing);
    assert_eq!(static_action(true, false, false, Some(true), false), Ok(StaticAction::ServeFile));
    assert_eq!(static_action(true, false, false, None, false), Ok(StaticAction::ServeFile));
}

#[test]
fn test_plan_static_request_on_disk() {
    let config = StaticPathConfig::builder()
        .uri("/code")
        .extensions("\\.rs$")
        .directory("src")
        .index_files(vec!["lib.rs".to_string()])
        .build()
        .unwrap();
    let plan = plan_static_request(&config, "/lib.rs", false);
    assert_eq!(plan.file, std::path::Path::new("src").join("lib.rs"));
    assert_eq!(plan.action, Ok(StaticAction::ServeFile));
    let plan = plan_static_request(&config, "/lib.rs", true);
    assert_eq!(plan.action, Ok(StaticAction::ServeMetadata));
    let plan = plan_static_request(&config, "/", false);
    assert_eq!(plan.action, Ok(StaticAction::ServeIndex));
    let plan = plan_static_request(&config, "/missing.png", false);
    assert_eq!(
        plan.action,
        Err(VetisError::VirtualHost(VirtualHostError::File(FileError::NotFound)))
    );
    assert_eq!(
        select_index_file("src", &vec!["home.html".to_string(), "lib.rs".to_string()]),
        Some("lib.rs".to_string())
    );
    assert_eq!(select_index_file("src", &vec!["home.html".to_string()]), None);
}

#[test]
fn test_memory_limit() {
    assert_eq!(memory_limit(&None), DEFAULT_MEMORY_LIMIT);
    let cache = StaticPathCache::builder().max_file_size(2048).build();
    assert_eq!(memory_limit(&Some(cache)), 2048);
    assert!(keep_in_memory(10, 11));
    assert!(!keep_in_memory(11, 11));
}

#[test]
fn test_mime_lookup() {
    assert_eq!(mime_type_for(Some("index.html")), Some("text/html".to_string()));
    assert_eq!(mime_type_for(Some("noextension")), None);
    assert_eq!(mime_type_for(None), None);
}

#[test]
fn test_static_file_accessors() {
    let meta = StaticFileMetadata::builder().mime("text/plain".to_string()).size(5).etag("e1".to_string()).build();
    assert_eq!(meta.mime(), Some(&"text/plain".to_string()));
    assert_eq!(meta.size(), 5);
    assert_eq!(meta.etag(), Some(&"e1".to_string()));
    let file = StaticFile::Data { data: b"hello".to_vec(), metadata: meta.clone() };
    assert_eq!(file.data(), Some(&b"hello".to_vec()));
    assert!(file.path().is_none());
    assert_eq!(file.metadata().size(), 5);
    let file = StaticFile::File { path: "/tmp/x".into(), metadata: meta };
    assert!(file.data().is_none());
    assert_eq!(file.path(), Some(&std::path::PathBuf::from("/tmp/x")));
}

fn pairs(v: &[(&str, &str)]) -> Vec<(String, String)> {
    v.iter().map(|(a, b)| (a.to_string(), b.to_string())).collect()
}

#[test]
fn test_decimal_string() {
    assert_eq!(decimal_string(0), "0");
    assert_eq!(decimal_string(7), "7");
    assert_eq!(decimal_string(10), "10");
    assert_eq!(decimal_string(1234567890), "1234567890");
    assert_eq!(decimal_string(u64::MAX), "18446744073709551615");
}

#[test]
fn test_format_date() {
    assert_eq!(format_date(SystemTime::UNIX_EPOCH), Some("Thu, 01 Jan 1970 00:00:00 +0000".to_string()));
    let later = SystemTime::UNIX_EPOCH + Duration::from_secs(1_000_000_000);
    assert_eq!(format_date(later), Some("Sun, 09 Sep 2001 01:46:40 +0000".to_string()));
    let before_1900 = SystemTime::UNIX_EPOCH - Duration::from_secs(80 * 366 * 86400);
    assert_eq!(format_date(before_1900), None);
}

#[test]
fn test_metadata_headers() {
    let date = "Thu, 01 Jan 1970 00:00:00 +0000";
    let mime = "text/html".to_string();
    assert_eq!(
        metadata_headers_with_date(42, date, Some(&mime)),
        Ok(pairs(&[("content-length", "42"), ("last-modified", date), ("content-type", "text/html")]))
    );
    assert_eq!(
        metadata_headers_with_date(0, date, None),
        Ok(pairs(&[("content-length", "0"), ("last-modified", date)]))
    );
    let invalid = Err(VetisError::VirtualHost(VirtualHostError::File(FileError::InvalidMetadata)));
    assert_eq!(metadata_headers_with_date(1, "bad\ndate", None), invalid);
    let bad_mime = "text/\u{7f}".to_string();
    assert_eq!(metadata_headers_with_date(1, date, Some(&bad_mime)), invalid);
    let meta = StaticFileMetadata::builder().size(5).modified(SystemTime::UNIX_EPOCH).build();
    assert_eq!(
        metadata_headers(&meta),
        Some(Ok(pairs(&[("content-length", "5"), ("last-modified", date)])))
    );
}

#[test]
fn test_file_cache_settings() {
    assert_eq!(file_cache_settings(&None), (1000, Duration::from_secs(60), Duration::from_secs(60)));
    let cache = StaticPathCache::builder()
        .capacity(5)
        .tti(Duration::from_secs(1))
        .ttl(Duration::from_secs(2))
        .build();
    assert_eq!(file_cache_settings(&Some(cache)), (5, Duration::from_secs(1), Duration::from_secs(2)));
}

#[test]
fn test_check_access() {
    let open = StaticPathConfig::builder().build().unwrap();
    assert_eq!(check_access(&open, None), Some(Ok(())));
    let mut users = HashMap::new();
    users.insert("alice".to_string(), bcrypt::hash("secret", 4).unwrap());
    let auth = BasicAuthConfig::builder().users(users).algorithm(Algorithm::BCrypt).build().unwrap();
    let guarded = StaticPathConfig::builder().basic_auth(auth).build().unwrap();
    // "alice:secret" and "alice:wrong" in base64
    assert_eq!(check_access(&guarded, Some(b"Basic YWxpY2U6c2VjcmV0")), Some(Ok(())));
    let unauthorized = Some(Err(VetisError::VirtualHost(VirtualHostError::Auth("Unauthorized".to_string()))));
    assert_eq!(check_access(&guarded, Some(b"Basic YWxpY2U6d3Jvbmc=")), unauthorized);
    assert_eq!(check_access(&guarded, None), unauthorized);
}

#[test]
fn test_first_existing() {
    let names = vec!["a.html".to_string(), "b.html".to_string(), "c.html".to_string()];
    assert_eq!(first_existing(&names, &vec![false, true, true]), Some("b.html".to_string()));
    assert_eq!(first_existing(&names, &vec![true, false, false]), Some("a.html".to_string()));
    assert_eq!(first_existing(&names, &vec![false, false, false]), None);
    assert_eq!(first_existing(&vec![], &vec![]), None);
}

#[test]
fn test_file_record() {
    let meta = file_metadata(Some("page.html"), 7, SystemTime::UNIX_EPOCH);
    assert_eq!(meta.mime(), Some(&"text/html".to_string()));
    assert_eq!(meta.size(), 7);
    assert_eq!(meta.modified(), SystemTime::UNIX_EPOCH);
    assert_eq!(meta.etag(), None);
    assert_eq!(file_metadata(None, 1, SystemTime::UNIX_EPOCH).mime(), None);
    let in_memory = file_record("/srv/page.html".into(), meta.clone(), Some(b"content".to_vec()));
    assert_eq!(in_memory.data(), Some(&b"content".to_vec()));
    assert!(in_memory.path().is_none());
    let on_disk = file_record("/srv/page.html".into(), meta, None);
    assert!(on_disk.data().is_none());
    assert_eq!(on_disk.path(), Some(&std::path::PathBuf::from("/srv/page.html")));
    assert_eq!(on_disk.metadata().size(), 7);
}
