[package]
name = "coserv_store"
version = "0.1.0"
edition = "2021"
publish = false

[dependencies]
corim-rs = "=0.2.0"
serde = { version = "=1.0.229", features = ["derive"] }
serde_json = "=1.0.154"
