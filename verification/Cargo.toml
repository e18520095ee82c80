[package]
name = "bian-rs"
version = "0.1.0"
edition = "2021"
publish = false

[dependencies]
chrono = "0.4"
hex = "0.4"
hmac = "0.10"
reqwest = { version = "0.11", default-features = false, features = ["rustls-tls"] }
serde = { version = "1", features = ["derive"] }
serde_json = "1"
serde_qs = "0.8"
sha2 = "0.9"
thiserror = "1"
tungstenite = { version = "*", features = ["rustls-tls-webpki-roots"] }
url = "2"
