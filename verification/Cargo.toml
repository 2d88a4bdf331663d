[package]
name = "module_registry"
version = "0.1.0"
edition = "2021"
publish = false

[dependencies]
anyhow = "1"
inventory = "0.3"
serde = { version = "1", features = ["derive"] }
tracing = "0.1"
