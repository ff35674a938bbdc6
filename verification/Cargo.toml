[package]
name = "chat_notifications"
version = "0.1.0"
edition = "2021"
publish = false

[dependencies]
matrix-sdk = { version = "=0.7.1", default-features = false, features = ["rustls-tls"] }
notify-rust = { version = "=4.18.2", default-features = false, features = ["z"] }
tracing = "=0.1.44"
