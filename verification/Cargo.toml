[package]
name = "filescanner"
version = "1.0.0"
edition = "2021"
publish = false

[dependencies]
goblin = "*"
infer = "*"
regex = "1"
md-5 = "0.10"
sha1 = "0.10"
sha2 = "0.10"
hex = "0.4"
zip = { version = "*", default-features = false, features = ["deflate"] }
flate2 = "1"
tar = "0.4"
chrono = "0.4"
serde = { version = "1", features = ["derive"] }
serde_json = "1"
reqwest = { version = "*", default-features = false, features = ["json", "rustls-tls"] }
tokio = { version = "1", features = ["full"] }
axum = { version = "*", features = ["multipart"] }
tower_governor = "*"
tower-http = { version = "*", features = ["fs", "timeout"] }
tracing = "0.1"
tracing-subscriber = "0.3"
anyhow = "1"
thiserror = "*"
