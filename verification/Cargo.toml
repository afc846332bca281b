[package]
name = "restate_downloader"
version = "0.1.0"
edition = "2021"
publish = false

[dependencies]
anyhow = "=1.0.104"
bytes = "=1.12.1"
content_disposition = "=0.4.0"
figment = { version = "=0.10.19", features = ["env"] }
futures = "=0.3.34"
http = "=1.5.0"
humantime-serde = "=1.1.1"
opendal = "=0.59.5"
reqwest = { version = "=0.12.28", default-features = false, features = ["rustls-tls", "stream"] }
restate-sdk = { version = "=0.12.1", features = ["schemars"] }
schemars = { version = "=1.2.3", features = ["url2"] }
serde = { version = "=1.0.229", features = ["derive"] }
tokio = { version = "=1.54.1", features = ["macros", "rt-multi-thread", "time"] }
tracing = "=0.1.44"
tracing-subscriber = "=0.3.23"
typed-path = "=0.13.0"
url = { version = "=2.5.8", features = ["serde"] }
