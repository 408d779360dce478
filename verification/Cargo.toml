[package]
name = "config_store"
version = "0.1.0"
edition = "2021"
publish = false

[dependencies]
arc-swap = "=1.9.3"
serde = { version = "1", features = ["derive", "rc"] }
tracing = "=0.1.44"
