[package]
name = "gh_dashboard"
version = "0.1.0"
edition = "2021"
publish = false

[dependencies]
chrono = "=0.4.45"
tokio = { version = "*", features = ["full"] }
tokio-stream = "*"
octocrab = "=0.43.0"
crossterm = { version = "*", features = ["event-stream"] }
ratatui = "*"
open = "*"
serde = { version = "*", features = ["derive"] }
config = { version = "*", default-features = false, features = ["toml"] }
dirs = "*"
secrecy = { version = "*", features = ["serde"] }
async-trait = "*"
