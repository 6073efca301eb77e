[package]
name = "vetis"
version = "0.1.0"
edition = "2021"
publish = false

[dependencies]
argon2 = "=0.5.3"
base64 = "=0.22.1"
bcrypt = "=0.19.3"
bytes = "=1.12.1"
deboa = "=0.1.3"
futures-lite = "=2.6.1"
futures-util = "=0.3.34"
http = "=1.5.0"
http-body-util = "=0.1.5"
hyper = { version = "=1.12.0", features = ["server", "http1", "http2"] }
hyper-body-utils = "=0.1.14"
hyper-util = { version = "=0.1.21", features = ["tokio"] }
log = "=0.4.35"
minimime = "=1.0.0"
moka = { version = "=0.12.16", features = ["future"] }
papaya = "=0.2.5"
parse_duration = "=2.1.1"
radix_trie = "=0.2.1"
regex = "=1.13.1"
ripht-php-sapi = "=0.1.0-rc.9"
serde = { version = "=1.0.229", features = ["derive"] }
smol = "=2.0.2"
time = { version = "=0.3.55", features = ["formatting"] }
tokio = { version = "=1.54.1", features = ["fs", "rt", "io-util", "net"] }
tokio-util = { version = "=0.7.20", features = ["io"] }
typetag = "=0.2.23"
