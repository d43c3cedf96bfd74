[package]
name = "unica_coder"
version = "0.1.0"
edition = "2021"
publish = false

[dependencies]
serde = { version = "1", features = ["derive"] }
serde_json = "1"
tokio = { version = "1", features = ["rt-multi-thread", "macros", "io-std", "sync", "time"] }
rmcp = { version = "*", features = ["server", "transport-io"] }
