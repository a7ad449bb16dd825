[package]
name = "ast"
version = "0.1.0"
edition = "2021"
publish = false

[dependencies]
tokio = { version = "1", features = ["full"] }
tokio-stream = "0.1"
crossterm = { version = "0.29", features = ["event-stream"] }
ratatui = "*"
clap = { version = "4", features = ["derive"] }
color-eyre = "*"
