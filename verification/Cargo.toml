[package]
name = "net_relay"
version = "0.1.0"
edition = "2021"
publish = false

[dependencies]
rosc = "0.10"
http = "1"
tokio-tungstenite = { version = "0.24", features = ["native-tls"] }
futures-util = "0.3"
tokio = { version = "1", features = ["rt", "net"] }
