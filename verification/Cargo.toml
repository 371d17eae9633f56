[package]
name = "opencontainers"
version = "0.1.0"
edition = "2021"
publish = false

[dependencies]
serde = { version = "*", features = ["derive"] }
serde_json = "*"
ttl_cache = "*"
www-authenticate = "*"
hyperx = "*"
reqwest = { version = "*", default-features = false, features = ["blocking", "rustls-tls", "gzip"] }
flate2 = "*"
tar = "*"
