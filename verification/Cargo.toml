[package]
name = "codex_sandbox"
version = "0.1.0"
edition = "2021"
publish = false

[dependencies]
dunce = "*"
unicode-width = "*"
ratatui = { version = "*", default-features = false }
