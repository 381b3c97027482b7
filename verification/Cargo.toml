[package]
name = "iot_simulator"
version = "0.1.0"
edition = "2021"
publish = false

[dependencies]
chrono = "0.4"
uuid = { version = "1", features = ["v4"] }
rand = "0.8"
serde = { version = "1", features = ["derive"] }
serde_json = "1"
ron = "0.8"
tokio = { version = "1", features = ["rt-multi-thread", "macros", "time", "sync"] }
tokio-stream = "0.1"
async-stream = "0.3"
clap = { version = "4", features = ["derive"] }
libloading = "0.8"
once_cell = "1"
home = "0.5"
config = { version = "0.14", default-features = false, features = ["toml"] }
