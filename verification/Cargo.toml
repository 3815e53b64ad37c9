[package]
name = "euler_core"
version = "0.1.0"
edition = "2021"
publish = false

[dependencies]
base64 = "0.22"
serde = { version = "1", features = ["derive"] }
serde_json = "1"
dirs = "*"
tokio = { version = "1", features = ["fs", "process", "rt-multi-thread", "macros", "io-util"] }
font-kit = "*"
