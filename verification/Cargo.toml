[package]
name = "rust_ai_sdk"
version = "0.1.0"
edition = "2021"
publish = false

[dependencies]
serde_json = "1"
reqwest = { version = "0.12", default-features = false, features = ["stream"] }
tokio = { version = "1", features = ["rt-multi-thread", "time", "macros"] }
futures = "0.3"
bytes = "1"
fastrand = "2"
