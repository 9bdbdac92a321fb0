[package]
name = "sequence-rs"
version = "0.1.0"
edition = "2021"
publish = false

[dependencies]
bon = "3"
dotenvy = "0.15"
futures = "0.3"
rand = "0.8"
reqwest = { version = "0.12", default-features = false, features = ["json", "rustls-tls"] }
secrecy = "0.8"
serde = { version = "1", features = ["derive"] }
serde_json = "1"
thiserror = "1"
tokio = { version = "1", features = ["time"] }
tracing = "0.1"
url = "2"
