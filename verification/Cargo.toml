[package]
name = "changelog"
version = "0.1.0"
edition = "2021"
publish = false

[dependencies]
anyhow = "*"
serde_json = { version = "*", features = ["preserve_order"] }
toml = "*"
