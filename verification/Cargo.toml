[package]
name = "lazytf"
version = "0.1.0"
edition = "2021"
publish = false

[dependencies]
color-eyre = "*"
crossterm = "=0.28.1"
glob = "*"
nix = { version = "*", features = ["signal"] }
ratatui = "=0.29.0"
serde = { version = "*", features = ["derive"] }
serde_yaml = "*"
tokio = { version = "*", features = ["full"] }
