[package]
name = "tester"
version = "0.1.0"
edition = "2021"
publish = false

[dependencies]
clap = { version = "4", features = ["derive"] }
color-eyre = "0.6"
eyre = "0.6"
futures = "0.3"
parking_lot = "0.12"
reqwest = { version = "0.11", default-features = false }
thiserror = "1"
tokio = { version = "1", features = ["macros", "process", "rt", "sync", "time"] }
tracing = "0.1"
tracing-subscriber = "0.3"
uuid = { version = "1", features = ["v4"] }
