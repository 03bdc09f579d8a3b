[package]
name = "chat_client"
version = "0.1.0"
edition = "2021"
publish = false

[dependencies]
tokio = { version = "1", features = ["rt", "net", "io-util", "sync", "macros"] }
ratatui = "0.29"
crossterm = "0.28"
tui-textarea = "0.7"
