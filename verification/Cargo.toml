[package]
name = "a2a"
version = "0.1.0"
edition = "2021"

[dependencies]
serde_json = "1"
uuid = { version = "1", features = ["v4"] }
reqwest = { version = "0.12", default-features = false }
