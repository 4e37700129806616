[package]
name = "tracel_client"
version = "0.1.0"
edition = "2021"
publish = false

[dependencies]
reqwest = { version = "=0.12.28", default-features = false, features = ["blocking", "json"] }
serde = { version = "=1.0.229", features = ["derive"] }
serde_json = "=1.0.154"
serde_with = { version = "=3.24.0", default-features = false, features = ["base64", "macros"] }
tracing = "=0.1.44"
uuid = "=1.29.1"
