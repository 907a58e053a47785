[package]
name = "tran"
version = "0.1.0"
edition = "2021"
publish = false

[dependencies]
unicode-width = "=0.2.0"
serde = { version = "=1.0.229", features = ["derive"] }
serde_json = "=1.0.154"
reqwest = { version = "=0.12.28", default-features = false, features = ["json", "rustls-tls", "socks"] }
tokio = { version = "=1.54.1", features = ["macros", "rt-multi-thread", "sync", "time"] }
futures = "=0.3.34"
rusqlite = { version = "=0.32.1", features = ["bundled"] }
clap = { version = "=4.6.7", features = ["derive"] }
colored = "=2.2.0"
crossterm = { version = "=0.28.1", features = ["event-stream"] }
ratatui = { version = "=0.29.0", features = ["unstable-rendered-line-info"] }
tui-textarea = "=0.7.0"
arboard = "=3.7.0"
dirs = "=5.0.1"
thiserror = "=1.0.69"
