[package]
name = "ws2mongo"
version = "0.1.0"
edition = "2021"
publish = false

[dependencies]
serde_json = "=1.0.151"
url = "=2.5.8"
tungstenite = "=0.30.0"
tokio = { version = "=1.53.2", features = ["rt-multi-thread", "macros", "sync", "time", "net"] }
tokio-tungstenite = { version = "=0.30.0", features = ["native-tls"] }
futures-util = "=0.3.34"
native-tls = "=0.2.18"
http = "=1.5.0"
thiserror = "=2.0.21"
