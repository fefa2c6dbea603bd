[package]
name = "monitare"
version = "0.1.0"
edition = "2021"
publish = false

[dependencies]
anchor-lang = "0.31"
chrono = "0.4.38"
zerocopy = "0.6"
byteorder = "1"
serde = { version = "1", features = ["derive"] }
serde_json = "1"
toml = "0.8"
thiserror = "1"
anyhow = "1"
sled = "0.34"
axum = "0.7"
tokio = { version = "1", features = ["full"] }
reqwest = { version = "0.12", default-features = false, features = ["blocking", "json", "rustls-tls"] }
tracing = "0.1"
tracing-subscriber = "0.3"
ctrlc = "3"
tokio-cron-scheduler = "0.13"
uuid = "1"
