[package]
name = "dictyped"
version = "0.1.0"
edition = "2021"
publish = false

[dependencies]
tokio = { version = "*", features = ["rt-multi-thread", "macros", "sync", "time", "process", "io-util", "net"] }
tokio-util = "*"
tokio-stream = { version = "*", features = ["net"] }
tokio-tungstenite = "*"
futures-util = "*"
serde = { version = "*", features = ["derive"] }
serde_json = "*"
toml = "*"
base64 = "*"
uuid = { version = "*", features = ["v4"] }
anyhow = "*"
libc = "*"
