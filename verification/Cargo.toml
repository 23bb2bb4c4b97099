[package]
name = "cubefs_bond"
version = "0.1.4"
edition = "2021"
publish = false

[dependencies]
serde = { version = "1", features = ["derive"] }
serde_json = "1"
serde_with = "3"
rocket = "0.5"
figment = { version = "0.10", features = ["toml"] }
salvo = "*"
