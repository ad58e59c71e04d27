[package]
name = "ollama_coordinator"
version = "0.1.0"
edition = "2021"
publish = false

[dependencies]
async-stream = "0.3"
tokio-stream = { version = "0.1", default-features = false }
serde_json = "1"
