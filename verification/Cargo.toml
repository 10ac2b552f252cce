[package]
name = "terminal_sessions"
version = "0.1.0"
edition = "2021"
publish = false

[dependencies]
anyhow = "1"
crossterm = "*"
ratatui = "*"
russh = "*"
tokio = { version = "1", features = ["rt-multi-thread", "sync", "time", "net"] }
