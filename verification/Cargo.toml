[package]
name = "flash_messages"
version = "0.1.0"
edition = "2021"
publish = false

[dependencies]
axum = "=0.8.9"
axum-messages = "=0.8.0"
tokio = { version = "=1.54.1", features = ["macros", "rt-multi-thread", "net"] }
tower-sessions = "=0.14.0"
