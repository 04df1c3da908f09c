[package]
name = "owncode"
version = "0.1.0"
edition = "2021"
publish = false

[dependencies]
ratatui = { version = "=0.30.2", features = ["unstable-rendered-line-info"] }
ratatui-textarea = "=0.9.4"
crossterm = { version = "=0.29.0", features = ["event-stream"] }
serde = { version = "=1.0.229", features = ["derive"] }
serde_json = "=1.0.154"
tokio = { version = "=1.54.1", features = ["full"] }
tokio-stream = "=0.1.19"
tokio-util = "=0.7.20"
async-openai = { version = "=0.43.0", features = ["byot", "chat-completion"] }
clap = { version = "=4.6.7", features = ["derive"] }
dotenv = "=0.15.0"
