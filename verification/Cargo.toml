[package]
name = "stdin_or_clipboard"
version = "0.1.0"
edition = "2021"
publish = false

[dependencies]
arboard = { version = "3", default-features = false }
thiserror = "1"
tokio = { version = "1", features = ["io-std", "io-util"] }
