[package]
name = "rusty_lsp"
version = "0.6.1"
edition = "2021"
publish = false

[dependencies]
serde = { version = "=1.0.229", features = ["derive"] }
serde_json = "=1.0.154"
tokio = { version = "=1.54.1", features = ["io-util", "io-std", "sync", "rt", "rt-multi-thread", "macros", "time", "net"] }
