[package]
name = "kclvm_api"
version = "0.1.0"
edition = "2021"
publish = false

[dependencies]
once_cell = "1"
prost = "0.11"
serde = { version = "1", features = ["derive"] }
serde_json = "1"
