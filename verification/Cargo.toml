[package]
name = "applog"
version = "0.1.0"
edition = "2021"
publish = false

[dependencies]
chrono = "*"
once_cell = "*"
reqwest = { version = "*", default-features = false }
tracing = "*"
tracing-appender = "*"
tracing-log = "*"
tracing-subscriber = { version = "*", features = ["env-filter"] }
