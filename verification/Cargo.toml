[package]
name = "asset_upload"
version = "0.1.0"
edition = "2021"
publish = false

[dependencies]
fs-err = "=2.11.0"
image = "=0.24.9"
reqwest = { version = "=0.12.28", default-features = false, features = ["blocking", "multipart"] }
secrecy = "=0.8.0"
serde = { version = "=1.0.229", features = ["derive"] }
serde_json = "=1.0.154"
thiserror = "=1.0.69"
