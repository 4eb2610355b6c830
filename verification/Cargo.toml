[package]
name = "loadgen"
version = "0.1.0"
edition = "2021"
publish = false

[dependencies]
anyhow = "*"
bytes = "*"
clap = { version = "*", features = ["derive"] }
hyper = { version = "0.14", features = ["client", "http1", "tcp"] }
libsql = "*"
tokio = { version = "*", features = ["macros", "rt-multi-thread", "process"] }
tracing = "*"
tracing-subscriber = "*"
