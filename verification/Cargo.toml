[package]
name = "codex_pager"
version = "0.1.0"
edition = "2021"
publish = false

[dependencies]
agent-client-protocol = { version = "0.10", features = ["unstable"] }
anyhow = "1"
async-trait = "0.1"
chrono = "0.4"
ratatui = "0.29"
serde = { version = "1", features = ["derive"] }
serde_json = { version = "1", features = ["raw_value"] }
tokio = { version = "1", features = ["io-util", "macros", "process", "rt", "sync", "time"] }
tracing = "0.1"
webbrowser = "1"
