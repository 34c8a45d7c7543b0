[package]
name = "groqai"
version = "0.1.0"
edition = "2021"
publish = false

[dependencies]
async-trait = "0.1"
backoff = { version = "0.4", features = ["tokio"] }
futures = "0.3"
reqwest = { version = "0.12", features = ["json", "stream", "multipart"] }
serde = { version = "1", features = ["derive"] }
serde_json = "1"
thiserror = "1"
tokio = { version = "1", features = ["time", "macros", "rt-multi-thread"] }
tracing = "0.1"
url = "2"
