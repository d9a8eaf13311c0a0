[package]
name = "spinctrl"
version = "0.1.0"
edition = "2021"
publish = false

[dependencies]
serde = { version = "1", features = ["derive"] }
serde_json = "1"
chrono = { version = "0.4", features = ["serde"] }
thiserror = "1"
log = "0.4"
env_logger = "0.11"
clap = { version = "4", features = ["derive"] }
tokio = { version = "1", features = ["full"] }
notify = "6"
nix = { version = "0.29", features = ["fs", "user"] }
ratatui = "0.29"
crossterm = "0.28"

[dev-dependencies]
tempfile = "3"
