[package]
name = "quickwit_clients"
version = "0.1.0"
edition = "2021"
publish = false

[dependencies]
anyhow = "1"
async-trait = "0.1"
reqwest = { version = "0.11", default-features = false }
serde = { version = "1", features = ["derive"] }
serde_json = "1"
thiserror = "1"
tokio = { version = "1", features = ["rt", "rt-multi-thread", "sync", "time"] }
tokio-stream = "0.1"
tonic = { version = "0.8", default-features = false }
tower = { version = "0.4", features = ["discover"] }
tracing = "0.1"

[dev-dependencies]
http = "0.2"
