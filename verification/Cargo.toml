[package]
name = "nuwax-codex-acp"
version = "0.1.0"
edition = "2021"
publish = false

[dependencies]
agent-client-protocol = "=1.3.0"
anyhow = "1"
clap = { version = "4", features = ["derive"] }
tokio = { version = "1", features = ["io-std"] }
tokio-util = { version = "0.7", features = ["compat"] }
tracing = "=0.1.44"
tracing-appender = "=0.2.5"
tracing-subscriber = { version = "=0.3.23", features = ["env-filter"] }
