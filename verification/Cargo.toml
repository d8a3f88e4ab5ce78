[package]
name = "temprs"
version = "0.1.0"
edition = "2021"
publish = false

[dependencies]
minimp3 = "0.5"
sha2 = "0.10"
rand = "0.9"
log = "0.4"
env_logger = "0.11"
tokio = { version = "1", features = ["rt", "time"] }
futures-util = "0.3"
serde = { version = "1", features = ["derive"] }
serde_json = "1"
rodio = { version = "0.20", default-features = false }
image = { version = "0.25", default-features = false, features = ["jpeg", "png"] }
reqwest = { version = "0.12", default-features = false, features = ["stream", "json", "rustls-tls"] }
