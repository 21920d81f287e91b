[package]
name = "desec_api"
version = "0.3.2"
edition = "2021"
publish = false

[dependencies]
log = "0.4"
reqwest = "0.12"
serde = { version = "1", features = ["derive"] }
serde_json = "1"
thiserror = "1"
tokio = { version = "1", features = ["time"] }
