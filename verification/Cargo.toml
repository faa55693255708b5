[package]
name = "grok_modes"
version = "0.1.0"
edition = "2021"
publish = false

[dependencies]
serde = { version = "1", features = ["derive"] }
serde_json = "1"
toml = "*"
toml_edit = "*"
anyhow = "1"
clap = { version = "4", features = ["derive"] }
ratatui = "*"
tokio = { version = "1", features = ["full"] }
agent-client-protocol = "*"
