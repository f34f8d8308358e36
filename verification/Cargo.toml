[package]
name = "log_rs"
version = "0.1.0"
edition = "2021"
publish = false

[dependencies]
anyhow = "*"
chrono = "*"
cliclack = "*"
once_cell = "*"
serde = { version = "*", features = ["derive"] }
serde_json = "*"
toml = "*"
