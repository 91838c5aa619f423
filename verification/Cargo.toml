[package]
name = "rmp"
version = "0.1.0"
edition = "2021"
publish = false

[dependencies]
crossterm = "*"
ratatui = "*"
regex = "*"
serde = { version = "1", features = ["derive"] }
serde_json = "1"
signal-hook = "*"
toml = "*"
