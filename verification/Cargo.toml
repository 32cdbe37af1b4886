[package]
name = "kick_rust"
version = "0.1.0"
edition = "2021"
publish = false

[dependencies]
serde = { version = "1", features = ["derive"] }
serde_json = "1"
regex = "1"
rand = "0.8"
flate2 = "1"
brotli = "*"
url = "2"
chrono = "0.4"
tokio = { version = "1", features = ["full"] }
tokio-tungstenite = { version = "0.21", features = ["rustls-tls-webpki-roots"] }
futures-util = "0.3"
reqwest = { version = "0.12", default-features = false, features = ["rustls-tls", "cookies"] }
curl = "0.4"
async-trait = "0.1"
tracing = "0.1"
thiserror = "1"
