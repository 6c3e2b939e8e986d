[package]
name = "whisper_server"
version = "0.1.0"
edition = "2021"
publish = false

[dependencies]
anyhow = "=1.0.104"
axum = "=0.8.9"
clap = { version = "=4.6.7", features = ["derive"] }
env_logger = "=0.11.11"
log = "=0.4.34"
serde = { version = "=1.0.229", features = ["derive"] }
tokio = { version = "=1.53.2", features = ["rt-multi-thread", "macros", "net", "sync"] }
tower-http = { version = "=0.7.1", features = ["limit"] }
transcribe-rs = { version = "=0.3.12", features = ["onnx"] }
whisper-rs = "=0.16.0"
