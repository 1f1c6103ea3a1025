[package]
name = "gradescope_local"
version = "0.1.0"
edition = "2021"
publish = false

[dependencies]
iced = "0.2"
serde = { version = "1", features = ["derive"] }
serde_json = { version = "1", features = ["raw_value"] }
