[package]
name = "tls_tunnel"
version = "0.1.0"
edition = "2021"
publish = false

[dependencies]
tokio = { version = "1", features = ["full"] }
tokio-rustls = { version = "0.26", default-features = false, features = ["ring", "tls12", "logging"] }
rustls = { version = "0.23", default-features = false, features = ["ring", "std", "tls12", "logging"] }
rustls-pemfile = "2"
rustls-native-certs = "0.8"
rcgen = "0.13"
serde = { version = "1", features = ["derive"] }
serde_json = "1"
toml = "0.8"
clap = { version = "4", features = ["derive"] }
yamux = "0.13"
futures = "0.3"
tokio-util = { version = "0.7", features = ["compat"] }
tracing = "0.1"
tracing-subscriber = { version = "0.3", features = ["env-filter"] }
anyhow = "1"
thiserror = "1"
url = "2"
maxminddb = "0.24"
governor = "0.6"
uuid = { version = "1", features = ["v4"] }
shellexpand = "3"
socket2 = "0.5"
async-trait = "0.1"
h2 = "0.4"
http = "1"
bytes = "1"
tokio-tungstenite = "0.24"
parking_lot = "0.12"
