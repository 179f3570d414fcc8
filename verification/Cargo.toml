[package]
name = "judge_core"
version = "0.1.0"
edition = "2021"
publish = false

[dependencies]
bit-vec = "0.6"
serde = { version = "1", features = ["derive"] }
serde_json = "1"
uuid = { version = "1", features = ["v4"] }
chrono = "0.4"

[dev-dependencies]
rand = "0.8"
