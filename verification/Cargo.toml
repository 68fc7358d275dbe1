[package]
name = "whisper_cli"
version = "0.1.0"
edition = "2021"
publish = false

[dependencies]
anyhow = "*"
futures-util = "*"
once_cell = "*"
reqwest = { version = "*", default-features = false, features = ["stream"] }
serde = { version = "*", features = ["derive"] }
tokio = { version = "*", features = ["rt-multi-thread", "macros"] }
whisper-rs = "*"
