[package]
name = "tui_react"
version = "0.1.0"
edition = "2021"
publish = false

[dependencies]
anyhow = "1"
async-stream = "0.3"
crossterm = { version = "*", features = ["event-stream"] }
futures = "0.3"
tokio = { version = "1", features = ["rt", "rt-multi-thread", "sync", "time"] }
