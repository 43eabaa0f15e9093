[package]
name = "worker_engine"
version = "0.1.0"
edition = "2021"
publish = false

[dependencies]
tokio = { version = "*", features = ["sync", "time", "rt", "rt-multi-thread", "macros"] }
tokio-util = "*"
anyhow = "*"
crossterm = "*"
ratatui = "*"
