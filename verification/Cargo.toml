[package]
name = "fmcore"
version = "0.1.0"
edition = "2021"
publish = false

[dependencies]
anyhow = "1"
clap = { version = "4", features = ["cargo"] }
crossbeam-channel = "0.5"
log = "0.4"
ratatui = { version = "0.26", default-features = false }
serde = { version = "1", features = ["derive"] }
serde_with = "3"
signal-hook = "0.3"
termion = "*"
toml = "*"
xdg = "*"
