[package]
name = "pumas_core"
version = "0.1.0"
edition = "2021"
publish = false

[dependencies]
uuid = { version = "1", features = ["v4"] }
blake3 = { version = "1", features = ["pure"] }
serde = { version = "1", features = ["derive"] }
serde_json = "1"
url = "2"
