[package]
name = "transcendia"
version = "0.1.0"
edition = "2021"
publish = false

[dependencies]
serde = { version = "1", features = ["derive"] }
serde_json = "1"
reqwest = { version = "0.12", features = ["stream"] }
tokio = { version = "1", features = ["sync", "time", "fs", "io-util", "macros", "rt"] }
futures-util = "0.3"
log = "0.4"
env_logger = "0.11"
image = { version = "*", default-features = false }
xcap = "*"
ocrs = "*"
rten = "*"
