[package]
name = "task_orchestrator"
version = "0.1.0"
edition = "2021"
publish = false

[dependencies]
serde_json = "1"
tracing = "0.1"
uuid = { version = "1", features = ["v4"] }
