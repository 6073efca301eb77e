use std::collections::HashMap;
use argon2::password_hash::SaltString;
use argon2::PasswordHasher;
use base64::Engine;
use vetis::auth::{Algorithm, AuthConfig, BasicAuthConfig};
use vetis::config::auth::parse_htpasswd;
use vetis::errors::{VetisError, VirtualHostError};

#[test]
fn test_algorithm_bcrypt_variant() {
    let bcrypt = Algorithm::BCrypt;
    assert_eq!(bcrypt, Algorithm::BCrypt);
}

#[test]
fn test_algorithm_argon2_variant() {
    let argon2 = Algorithm::Argon2;
    assert_eq!(argon2, Algorithm::Argon2);
}

#[test]
fn test_algorithm_partial_eq() {
    assert_eq!(Algorithm::BCrypt, Algorithm::BCrypt);
    assert_eq!(Algorithm::Argon2, Algorithm::Argon2);
    assert_ne!(Algorithm::BCrypt, Algorithm::Argon2);
}

#[test]
fn test_algorithm_debug() {
    let bcrypt = format!("{:?}", Algorithm::BCrypt);
    assert_eq!(bcrypt, "BCrypt");

    let argon2 = format!("{:?}", Algorithm::Argon2);
    assert_eq!(argon2, "Argon2");
}

#[test]
fn test_basic_auth_config_builder_build_success() {
    let mut users = HashMap::new();
    users.insert("admin".to_string(), "hashed_password".to_string());

    let config = BasicAuthConfig::builder()
        .users(users.clone())
        .algorithm(Algorithm::Argon2)
        .build()
        .unwrap();

    assert_eq!(config.users(), &users);
    assert_eq!(config.algorithm(), &Algorithm::Argon2);
    assert_eq!(config.htpasswd(), &None);
}

#[test]
fn test_basic_auth_config_builder_build_htpasswd_not_found() {
    let result = BasicAuthConfig::builder()
        .htpasswd("/nonexistent/.htpasswd")
        .build();

    assert!(result.is_err());
}

#[test]
fn test_basic_auth_config_builder_chain() {
    let mut users = HashMap::new();
    users.insert("admin".to_string(), "hashed_password".to_string());

    let config = BasicAuthConfig::builder()
        .users(users.clone())
        .algorithm(Algorithm::Argon2)
        .build()
        .unwrap();

    assert_eq!(config.users(), &users);
    assert_eq!(config.algorithm(), &Algorithm::Argon2);
}

#[test]
fn test_basic_auth_config_users_getter() {
    let mut users = HashMap::new();
    users.insert("admin".to_string(), "hashed_password".to_string());
    users.insert("user".to_string(), "another_hash".to_string());

    let config = BasicAuthConfig::builder()
        .users(users.clone())
        .build()
        .unwrap();

    assert_eq!(config.users(), &users);
}

#[test]
fn test_basic_auth_config_algorithm_getter() {
    let config = BasicAuthConfig::builder()
        .algorithm(Algorithm::BCrypt)
        .build()
        .unwrap();

    assert_eq!(config.algorithm(), &Algorithm::BCrypt);

    let config = BasicAuthConfig::builder()
        .algorithm(Algorithm::Argon2)
        .build()
        .unwrap();

    assert_eq!(config.algorithm(), &Algorithm::Argon2);
}

#[test]
fn test_basic_auth_config_default_algorithm() {
    let config = BasicAuthConfig::builder()
        .build()
        .unwrap();
    assert_eq!(config.algorithm(), &Algorithm::BCrypt);
}

#[test]
fn test_basic_auth_config_empty_users() {
    let config = BasicAuthConfig::builder()
        .build()
        .unwrap();
    assert!(config
        .users()
        .is_empty());
}

#[test]
fn test_basic_auth_config_multiple_users() {
    let mut users = HashMap::new();
    users.insert("user1".to_string(), "hash1".to_string());
    users.insert("user2".to_string(), "hash2".to_string());
    users.insert("user3".to_string(), "hash3".to_string());

    let config = BasicAuthConfig::builder()
        .users(users.clone())
        .build()
        .unwrap();

    assert_eq!(config.users().len(), 3);
    assert_eq!(config.users(), &users);
}

#[test]
fn test_basic_auth_config_clone() {
    let mut users = HashMap::new();
    users.insert("admin".to_string(), "hashed_password".to_string());

    let config = BasicAuthConfig::builder()
        .users(users.clone())
        .build()
        .unwrap();

    let cloned_config = config.clone();
    assert_eq!(cloned_config.users(), config.users());
    assert_eq!(cloned_config.algorithm(), config.algorithm());
    assert_eq!(cloned_config.htpasswd(), config.htpasswd());
}

/// A file that exists wherever the tests run, standing in for an `.htpasswd` file.
const EXISTING_FILE: &str = "src/lib.rs";

#[test]
fn test_basic_auth_config_builder_build_with_htpasswd_file() {
    let path = EXISTING_FILE.to_string();
    let config = BasicAuthConfig::builder()
        .htpasswd(&path)
        .build()
        .unwrap();

    assert_eq!(config.htpasswd(), &Some(path.clone()));
}

#[test]
fn test_basic_auth_config_htpasswd_getter() {
    let config = BasicAuthConfig::builder()
        .build()
        .unwrap();

    assert_eq!(config.htpasswd(), &None);

    let path = EXISTING_FILE.to_string();
    let config = BasicAuthConfig::builder()
        .htpasswd(&path)
        .build()
        .unwrap();

    assert_eq!(config.htpasswd(), &Some(path));
}

#[test]
fn test_htpasswd_content_valid_lines() {
    let content = "user1:$2y$10$hash1\nuser2:$2y$10$hash2\n\nuser3:$2y$10$hash3\n";
    let config = BasicAuthConfig::builder()
        .add_users(parse_htpasswd(content))
        .build()
        .unwrap();

    assert_eq!(config.users().len(), 3);
    assert_eq!(config.users().get("user1"), Some(&"$2y$10$hash1".to_string()));
    assert_eq!(config.users().get("user2"), Some(&"$2y$10$hash2".to_string()));
    assert_eq!(config.users().get("user3"), Some(&"$2y$10$hash3".to_string()));
}

#[test]
fn test_htpasswd_content_malformed_lines() {
    let content =
        "valid_user:$2y$10$hash\ninvalid_line_without_colon\nanother_valid:$2y$10$hash2\n";
    let config = BasicAuthConfig::builder()
        .add_users(parse_htpasswd(content))
        .build()
        .unwrap();

    assert_eq!(config.users().len(), 2);
    assert_eq!(config.users().get("valid_user"), Some(&"$2y$10$hash".to_string()));
    assert_eq!(config.users().get("another_valid"), Some(&"$2y$10$hash2".to_string()));
    assert!(config.users().get("invalid_line_without_colon").is_none());
}

#[test]
fn test_htpasswd_content_crlf_and_colons() {
    let entries = parse_htpasswd("alice:pw:with:colons\r\nbob:x\r\n");
    assert_eq!(
        entries,
        vec![
            ("alice".to_string(), "pw:with:colons".to_string()),
            ("bob".to_string(), "x".to_string())
        ]
    );
    assert!(parse_htpasswd("").is_empty());
    assert_eq!(
        parse_htpasswd("a:x\r\nb:y\r"),
        vec![("a".to_string(), "x".to_string()), ("b".to_string(), "y\r".to_string())]
    );
}

#[test]
fn test_later_entry_replaces_earlier() {
    let config = BasicAuthConfig::builder()
        .add_users(parse_htpasswd("u:first\nu:second\n"))
        .build()
        .unwrap();
    assert_eq!(config.users().len(), 1);
    assert_eq!(config.users().get("u"), Some(&"second".to_string()));
}

fn basic_header(credentials: &str) -> Vec<u8> {
    let encoded = base64::engine::general_purpose::STANDARD.encode(credentials);
    format!("Basic {}", encoded).into_bytes()
}

fn auth_err(msg: &str) -> Result<bool, VetisError> {
    Err(VetisError::VirtualHost(VirtualHostError::Auth(msg.to_string())))
}

#[test]
fn test_authenticate_with_bcrypt() {
    let mut users = HashMap::new();
    users.insert("alice".to_string(), bcrypt::hash("secret", 4).unwrap());
    let config = BasicAuthConfig::builder()
        .users(users)
        .algorithm(Algorithm::BCrypt)
        .build()
        .unwrap();

    assert_eq!(config.authenticate(Some(&basic_header("alice:secret"))), Ok(true));
    assert_eq!(config.authenticate(Some(&basic_header("alice:wrong"))), Ok(false));
    assert_eq!(config.authenticate(Some(&basic_header("bob:secret"))), Ok(false));
    assert_eq!(config.try_authenticate(Some(&basic_header("alice:secret"))), Some(Ok(true)));
}

#[test]
fn test_authenticate_with_unreadable_bcrypt_hash() {
    let mut users = HashMap::new();
    users.insert("alice".to_string(), "not-a-hash".to_string());
    let config = BasicAuthConfig::builder()
        .users(users)
        .algorithm(Algorithm::BCrypt)
        .build()
        .unwrap();
    assert_eq!(config.authenticate(Some(&basic_header("alice:secret"))), Ok(false));
}

#[test]
fn test_authenticate_with_argon2() {
    let salt = SaltString::from_b64("c29tZXNhbHRzb21lc2FsdA").unwrap();
    let hash = argon2::Argon2::default()
        .hash_password(b"secret", &salt)
        .unwrap()
        .to_string();
    let mut users = HashMap::new();
    users.insert("alice".to_string(), hash);
    users.insert("broken".to_string(), "plain".to_string());
    let config = BasicAuthConfig::builder()
        .users(users)
        .algorithm(Algorithm::Argon2)
        .build()
        .unwrap();

    assert_eq!(config.authenticate(Some(&basic_header("alice:secret"))), Ok(true));
    assert_eq!(config.authenticate(Some(&basic_header("alice:nope"))), Ok(false));
    assert_eq!(config.try_authenticate(Some(&basic_header("broken:secret"))), None);
    assert_eq!(config.try_authenticate(Some(&basic_header("nobody:secret"))), Some(Ok(false)));
}

#[test]
fn test_authenticate_malformed_headers() {
    let config = BasicAuthConfig::builder()
        .build()
        .unwrap();

    assert_eq!(config.authenticate(None), auth_err("Missing Authorization header"));
    assert_eq!(
        config.authenticate(Some("Bearer token".as_bytes())),
        auth_err("Expected basic authentication")
    );
    assert_eq!(
        config.authenticate(Some("Basic caf\u{e9}".as_bytes())),
        auth_err("Invalid Authorization header")
    );
    assert_eq!(
        config.authenticate(Some(&basic_header("no-colon-here"))),
        auth_err("Invalid credentials")
    );
    let undecodable = config.authenticate(Some("Basic !!!".as_bytes()));
    match undecodable {
        Err(VetisError::VirtualHost(VirtualHostError::Auth(msg))) => {
            assert!(msg.starts_with("Could not decode header: "));
        }
        other => panic!("unexpected {:?}", other),
    }
    let mut invalid_utf8 = b"Basic ".to_vec();
    invalid_utf8.extend(base64::engine::general_purpose::STANDARD.encode([0xffu8, 0xfe]).into_bytes());
    assert_eq!(config.authenticate(Some(&invalid_utf8)), auth_err("Invalid Authorization header"));
}
