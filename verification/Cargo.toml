[package]
name = "report_generator"
version = "0.1.0"
edition = "2021"
publish = false

[dependencies]
chrono = "0.4"
docx-rs = "0.4"
pyo3 = "0.20"
pyo3-asyncio = { version = "0.20", features = ["tokio-runtime"] }
serde = { version = "1", features = ["derive"] }
serde_json = "1"
tokio = { version = "1", features = ["rt-multi-thread"] }
