[package]
name = "stash"
version = "0.1.0"
edition = "2021"
publish = false

[dependencies]
uuid = { version = "1", features = ["v4"] }
tui-input = "*"
fuzzy-matcher = "0.3"
crossterm = "*"
ratatui = "*"
sqlx = { version = "0.8", default-features = false, features = ["sqlite", "runtime-tokio", "time"] }
tokio = { version = "1", features = ["rt-multi-thread", "sync", "macros"] }
anyhow = "1"
clap = { version = "4", features = ["derive"] }
serde = { version = "1", features = ["derive"] }
toml = "*"
csv = "1"
directories = "*"
time = "0.3"
tracing = "0.1"
tracing-appender = "0.2"
tracing-subscriber = { version = "0.3", features = ["env-filter"] }
async-trait = "0.1"
thiserror = "*"
