[package]
name = "stu"
version = "0.1.0"
edition = "2021"
publish = false

[dependencies]
unicode-width = "*"
chrono = "*"
ratatui = "*"
ratatui-image = "*"
console = "*"
anyhow = "*"
clap = { version = "*", features = ["derive"] }
tokio = { version = "*", features = ["rt-multi-thread", "macros", "sync"] }
tracing = "*"
tracing-subscriber = { version = "*", features = ["chrono"] }
laurier = "*"
