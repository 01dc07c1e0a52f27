[package]
name = "opencoders"
version = "0.1.0"
edition = "2021"
publish = false

[dependencies]
rand = "0.8"
tui-textarea = "0.7"
crossterm = "0.28"
ratatui = "0.29"
serde_json = "1"
tokio = { version = "1", features = ["full"] }
reqwest = { version = "0.12", default-features = false }
eyre = "0.6"
color-eyre = "0.6"
anyhow = "1"
thiserror = "1"
tracing = "0.1"
tracing-appender = "0.2"
tracing-subscriber = { version = "0.3", features = ["env-filter"] }
dirs = "5"
owo-colors = "4"
throbber-widgets-tui = "0.8"
