[package]
name = "benben"
version = "0.1.0"
edition = "2021"
publish = false

[dependencies]
serde_json = "=1.0.154"
serde = { version = "=1.0.229", features = ["derive"] }
tokio = { version = "=1.54.1", features = ["sync", "process", "rt", "macros"] }
reqwest = { version = "=0.12.28", features = ["json", "stream"] }
reqwest-eventsource = "=0.6.0"
futures = "=0.3.34"
async-stream = "=0.3.6"
sea-orm = { version = "=1.1.20", default-features = false, features = ["macros"] }
rmcp = { version = "=3.7.0", features = ["client", "transport-child-process"] }
thiserror = "=1.0.69"
once_cell = "=1.21.4"
tracing = "=0.1.44"
url = "=2.5.8"
