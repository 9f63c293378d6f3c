[package]
name = "boa"
version = "0.1.0"
edition = "2021"
publish = false

[dependencies]
anyhow = "1"
base64 = "0.22"
chrono = "0.4"
directories = "*"
futures-channel = "0.3"
futures-util = "0.3"
log = "0.4"
once_cell = "1"
prost = "*"
rusqlite = "*"
serde_json = "1"
tokio = { version = "1", features = ["full"] }
tracing-appender = "0.2"
tracing-subscriber = { version = "0.3", features = ["env-filter", "json"] }
