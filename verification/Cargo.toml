[package]
name = "minerva"
version = "0.1.0"
edition = "2021"
publish = false

[dependencies]
chrono = "*"
uuid = { version = "*", features = ["v4"] }
serde = { version = "*", features = ["derive"] }
serde_json = "*"
toml = "*"
thiserror = "*"
async-trait = "*"
tokio = { version = "*", features = ["full"] }
tokio-stream = { version = "*", features = ["sync"] }
futures = "*"
tracing = "*"
tracing-subscriber = { version = "*", features = ["env-filter"] }
image = "*"
clap = { version = "*", features = ["derive"] }
crossterm = "*"
ratatui = "*"
