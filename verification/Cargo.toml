[package]
name = "hmr"
version = "0.1.0"
edition = "2021"
publish = false

[dependencies]
dashmap = "*"
serde_json = "*"
tokio = { version = "*", features = ["fs", "macros", "rt", "sync", "time"] }
