[package]
name = "tmux_knight"
version = "0.1.0"
edition = "2021"
publish = false

[dependencies]
anyhow = "1"
colored = "*"
dirs = "*"
symlink = "*"
tracing = "0.1"
tracing-subscriber = { version = "0.3", features = ["env-filter"] }
