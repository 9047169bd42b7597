[package]
name = "fold"
version = "0.1.0"
edition = "2021"
publish = false

[dependencies]
serde = { version = "*", features = ["derive"] }
serde_json = "*"
serde_repr = "*"
serde-aux = { version = "*", default-features = false }
