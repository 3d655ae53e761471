[package]
name = "my_rust_toolkit"
version = "0.1.0"
edition = "2021"
publish = false

[dependencies]
tracing = "0.1"
tracing-appender = "0.2"
tracing-subscriber = { version = "0.3", features = ["env-filter", "local-time"] }
tracing-error = "0.2"
color-eyre = "0.6"
time = { version = "0.3", features = ["formatting", "local-offset"] }
