[package]
name = "libcmd"
version = "0.1.0"
edition = "2021"
publish = false

[dependencies]
serde = { version = "1", features = ["derive"] }
thiserror = "2"
tokio = { version = "1", features = ["io-util", "macros", "process", "rt", "sync"] }
tokio-util = "0.7"
tracing = "0.1"
valuable = { version = "0.1", features = ["derive"] }
