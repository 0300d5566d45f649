[package]
name = "prek"
version = "0.1.0"
edition = "2021"
publish = false

[dependencies]
anyhow = "=1.0.104"
fs-err = "=3.3.2"
globset = "=0.4.21"
owo-colors = "=4.4.0"
regex = "=1.13.1"
serde = { version = "1", features = ["derive"] }
serde_yaml = "0.9"
tempfile = "=3.27.0"
toml_edit = "=0.25.17"
