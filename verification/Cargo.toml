[package]
name = "cmd-engine"
version = "0.1.0"
edition = "2021"
publish = false

[dependencies]
serde = { version = "1", features = ["derive"] }
serde_json = "1"
axum = "0.7"
tokio = { version = "1", features = ["full"] }
reqwest = { version = "0.12", features = ["json"] }
dirs = "5"
tracing = "0.1"
tracing-subscriber = "0.3"
colored = "2"
dialoguer = "0.11"
async-trait = "0.1"
