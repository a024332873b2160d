[package]
name = "consumer"
version = "0.1.0"
edition = "2021"
publish = false

[dependencies]
alloy = { version = "=1.8.3", default-features = false }
serde = { version = "=1.0.229", features = ["derive"] }
serde_json = "=1.0.154"
strum = "*"
thiserror = "=2.0.21"
tracing = "=0.1.44"
