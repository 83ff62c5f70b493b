[package]
name = "zinit-client"
version = "0.4.0"
edition = "2021"
publish = false

[dependencies]
serde = { version = "1", features = ["derive"] }
serde_json = "1"
chrono = { version = "0.4", features = ["serde"] }
tokio = { version = "1", features = ["net", "io-util", "time", "sync", "rt"] }
futures = "0.3"
async-stream = "0.3"
thiserror = "1"
tracing = "0.1"
rand = "0.8"
