[package]
name = "up_tui"
version = "0.2.2"
edition = "2021"
publish = false

[dependencies]
anyhow = "=1.0.104"
crossterm = { version = "=0.29.0", features = ["event-stream"] }
dirs = "=7.0.0"
futures = "=0.3.34"
http-cache-reqwest = { version = "=0.16.0", features = ["manager-moka"] }
jiff = { version = "=0.2.43", features = ["serde"] }
ratatui = "=0.30.2"
ratatui-themes = "=0.3.0"
reqwest = { version = "=0.12.28", default-features = false, features = ["json", "rustls-tls"] }
reqwest-middleware = "=0.4.2"
serde = { version = "=1.0.229", features = ["derive"] }
serde_json = "=1.0.154"
thiserror = "=2.0.21"
tokio = { version = "=1.54.1", features = ["rt", "macros", "sync"] }
toml = "=1.2.1"
