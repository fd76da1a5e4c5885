[package]
name = "testbed"
version = "0.1.0"
edition = "2021"
publish = false

[dependencies]
anyhow = "1"
chrono = "0.4"
clap = { version = "4", features = ["derive"] }
csv = "1"
flume = "0.11"
futures = "0.3"
futures-util = { version = "0.3", features = ["sink"] }
mac_address = "1"
postcard = { version = "1", features = ["use-std"] }
rcgen = "0.11"
ron = "0.8"
serde = { version = "1", features = ["derive"] }
thiserror = "1"
tokio = { version = "1", features = ["full"] }
tokio-rustls = "0.23"
tokio-serial = { version = "5", default-features = false }
tokio-tungstenite = { version = "0.18", features = ["rustls-tls-webpki-roots"] }
toml = "0.7"
uuid = { version = "1", features = ["v4"] }
