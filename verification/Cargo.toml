[package]
name = "iron_jwt"
version = "0.1.0"
edition = "2021"
publish = false

[dependencies]
jsonwebtoken = { version = "=11.1.0", default-features = false, features = ["rust_crypto"] }
serde_json = { version = "=1.0.151", features = ["raw_value"] }
serde = { version = "=1.0.229", features = ["derive"] }
iron = "=0.6.1"
