[package]
name = "ffpipeline"
version = "0.1.0"
edition = "2021"
publish = false

[dependencies]
serde = { version = "1", features = ["derive"] }
tokio = { version = "1", features = ["process", "rt", "macros"] }
time = "0.3"
log = "0.4"
