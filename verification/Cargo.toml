[package]
name = "tengu_provision"
version = "0.1.0"
edition = "2021"
publish = false

[dependencies]
anyhow = "1"
clap = { version = "4", features = ["derive"] }
comfy-table = "7"
console = "0.15"
dialoguer = "0.11"
hex = "0.4"
indicatif = "0.17"
serde = { version = "1", features = ["derive"] }
serde_yaml = "0.9"
sha2 = "0.10"
tempfile = "3"
tera = { version = "1", default-features = false }
toml = "0.8"
