[package]
name = "device_code"
version = "0.1.0"
edition = "2021"
publish = false

[dependencies]
oauth2 = { version = "*", default-features = false }
reqwest = { version = "*", default-features = false }
serde = { version = "*", features = ["derive"] }
serde_json = "*"
