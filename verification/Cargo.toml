[package]
name = "iterm2-client"
version = "0.1.0"
edition = "2021"
publish = false

[dependencies]
serde_json = "1"
prost = "*"
thiserror = "*"
tokio = { version = "1", features = ["sync", "time", "net", "rt", "macros", "io-util"] }
tokio-tungstenite = "*"
futures-util = { version = "*", features = ["sink"] }
