[package]
name = "zlaunch"
version = "0.1.0"
edition = "2021"
publish = false

[dependencies]
fuzzy-matcher = "*"
anyhow = "*"
clap = { version = "*", features = ["derive"] }
flume = "*"
serde = { version = "*", features = ["derive"] }
serde_json = "*"
