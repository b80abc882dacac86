[package]
name = "ktop"
version = "0.1.0"
edition = "2021"
publish = false

[dependencies]
git2 = { version = "*", default-features = false }
crossterm = { version = "*", features = ["event-stream"] }
ratatui = "*"
tokio = { version = "*", features = ["macros", "rt-multi-thread", "sync", "time"] }
futures = "*"
serde = { version = "*", features = ["derive"] }
toml = "*"
sysinfo = "*"
color-eyre = "*"
thiserror = "*"
tracing = "*"
tracing-subscriber = "*"
