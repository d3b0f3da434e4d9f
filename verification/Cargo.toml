[package]
name = "mock_executor"
version = "0.1.0"
edition = "2021"
publish = false

[dependencies]
chrono = "0.4"
dashmap = "5.5"
prost = "0.13"
pyo3 = "0.20"
tokio = { version = "1", features = ["macros", "rt-multi-thread", "sync", "time"] }
tonic = "0.12"
tracing = "0.1"
tracing-subscriber = { version = "0.3.18", features = ["chrono"] }
