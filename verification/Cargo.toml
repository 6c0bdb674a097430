[package]
name = "mcpg-plugin-backend-llm-gemini"
version = "1.0.0"
edition = "2021"
publish = false

[dependencies]
async-trait = "=0.1.92"
base64 = "=0.22.1"
bytes = "=1.12.1"
chrono = { version = "=0.4.45", default-features = false, features = ["clock", "std"] }
futures = "=0.3.34"
metrics = "=0.24.6"
reqwest = { version = "=0.12.28", default-features = false, features = ["json", "stream", "rustls-tls"] }
serde = { version = "=1.0.229", features = ["derive"] }
serde_json = "=1.0.154"
tokio = { version = "=1.54.1", default-features = false, features = ["rt", "sync"] }
tracing = "=0.1.44"
