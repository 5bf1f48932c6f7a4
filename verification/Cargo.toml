[package]
name = "winter-paintboard-sdk"
version = "0.1.0"
edition = "2021"
publish = false

[dependencies]
uuid = "=1.29.0"
rand = "=0.8.8"
governor = "=0.6.3"
url = "=2.5.8"
dashmap = "=5.5.3"
tokio = { version = "=1.54.1", features = ["full"] }
tokio-tungstenite = "=0.21.0"
futures = "=0.3.34"
reqwest = { version = "=0.11.27", default-features = false, features = ["json"] }
serde = { version = "=1.0.229", features = ["derive"] }
thiserror = "=1.0.69"
tracing = "=0.1.44"
async-trait = "=0.1.92"
once_cell = "=1.21.4"
tokio-util = "=0.7.20"
log = "=0.4.35"
color-eyre = "=0.6.5"
deadpool = "=0.12.3"
