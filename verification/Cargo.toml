[package]
name = "brian_desktop"
version = "0.1.0"
edition = "2021"
publish = false

[dependencies]
serde_json = "1"
uuid = { version = "1", features = ["v4"] }
chrono = "0.4"
sha2 = "0.10"
base64 = "0.22"
urlencoding = "2"
url = "2"
serde = { version = "1", features = ["derive"] }
thiserror = "2"
rand = "0.9"
rusqlite = { version = "*", features = ["bundled"] }
reqwest = { version = "0.12", default-features = false, features = ["json", "rustls-tls"] }
tokio = { version = "1", features = ["rt-multi-thread", "macros"] }
keyring = "3"
tracing = "0.1"
