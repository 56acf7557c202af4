[package]
name = "sprout_mobile"
version = "0.1.0"
edition = "2021"
publish = false

[dependencies]
nostr = { version = "=0.45.6", features = ["std", "os-rng"] }
sha2 = "=0.10.9"
hex = "=0.4.3"
base64 = "=0.22.1"
chrono = "=0.4.45"
uuid = { version = "=1.29.0", features = ["v4"] }
urlencoding = "=2.1.3"
url = "=2.5.8"
serde_json = "=1.0.154"
reqwest = { version = "=0.12.28", default-features = false, features = ["json", "rustls-tls"] }
rusqlite = { version = "=0.32.1", features = ["bundled"] }
tokio = { version = "=1.54.1", features = ["rt-multi-thread", "sync", "time", "macros"] }
tokio-tungstenite = "=0.26.2"
futures-util = "=0.3.34"
tracing = "=0.1.44"
thiserror = "=2.0.21"
uniffi = "=0.28.3"
