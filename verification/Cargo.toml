[package]
name = "shenron"
version = "0.1.0"
edition = "2021"
publish = false

[dependencies]
russh = "*"
russh-sftp = "*"
tokio = { version = "*", features = ["full"] }
tracing = "*"
rand = "*"
ratatui = "*"
governor = "*"
