[package]
name = "wezterm_utils"
version = "0.1.0"
edition = "2021"
publish = false

[dependencies]
anyhow = "*"
chrono = "*"
clap = { version = "*", features = ["derive"] }
colored = "*"
crossbeam-channel = "*"
crossterm = "*"
env_logger = "*"
git2 = "*"
ignore = "*"
log = "*"
notify = "*"
notify-debouncer-full = "*"
ratatui = "*"
serde = { version = "*", features = ["derive"] }
serde_json = "*"
thiserror = "*"
tokio = { version = "*", features = ["full"] }
