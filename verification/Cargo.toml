[package]
name = "polymarket_core"
version = "0.1.0"
edition = "2021"
publish = false

[dependencies]
alloy = { version = "=1.8.3", default-features = false, features = ["std", "contract"] }
backoff = "=0.4.0"
futures = { version = "0.3", default-features = false, features = ["std"] }
idna_adapter = "=1.1.0"
rustls = { version = "0.23", default-features = false, features = ["ring", "std"] }
serde = "1"
serde_json = "1"
tokio = { version = "=1.54.1", features = ["macros", "net", "rt", "sync", "time"] }
tokio-socks = "=0.5.3"
tokio-tungstenite = { version = "=0.28.0", default-features = false, features = ["connect", "handshake", "rustls-tls-native-roots"] }
url = "=2.5.8"
