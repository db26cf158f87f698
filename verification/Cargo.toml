[package]
name = "beatbridge"
version = "0.1.0"
edition = "2021"
publish = false

[dependencies]
ableton-link-rs = "*"
prodjlink-rs = "*"
tokio = { version = "1", features = ["full"] }
clap = { version = "4", features = ["derive"] }
serde = { version = "1", features = ["derive"] }
toml = "*"
tracing = "0.1"
tracing-subscriber = { version = "0.3", features = ["env-filter"] }
