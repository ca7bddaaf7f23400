[package]
name = "danielek"
version = "0.1.0"
edition = "2021"
publish = false

[dependencies]
tokio = { version = "*", features = ["rt-multi-thread", "macros", "time", "sync", "net"] }
reqwest = { version = "*", default-features = false, features = ["json"] }
serde = { version = "*", features = ["derive"] }
serde_json = "*"
futures-util = "*"
tokio-stream = "*"
tokio-tungstenite = "*"
log = "*"
uuid = { version = "*", features = ["v4"] }
