[package]
name = "mosaico-core"
version = "0.1.0"
edition = "2021"
publish = false

[dependencies]
serde = { version = "1", features = ["derive"] }
toml = "*"
toml_edit = "*"
dirs = "*"

[dev-dependencies]
serde_json = "1"
