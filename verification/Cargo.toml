[package]
name = "attractor"
version = "0.1.0"
edition = "2021"
publish = false

[dependencies]
streamweave = "*"
async-trait = "*"
futures = "*"
serde = { version = "*", features = ["derive"] }
serde_json = "*"
tokio = { version = "*", features = ["rt-multi-thread", "macros", "sync"] }
tokio-stream = "*"
chrono = "*"
clap = { version = "*", features = ["derive"] }
tracing = "*"
tracing-subscriber = { version = "*", features = ["env-filter"] }
