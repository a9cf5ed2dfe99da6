[package]
name = "hmk"
version = "0.1.0"
edition = "2021"
publish = false

[dependencies]
rand = "0.9"
serde = { version = "1", features = ["derive"] }
toml = "*"
yaml_serde = "*"
anyhow = "1"
anyhow_serde = "*"
clap = { version = "4", features = ["derive"] }
inquire = "*"
itertools = "*"
strum = { version = "*", features = ["derive"] }
