[package]
name = "fx"
version = "0.1.0"
edition = "2021"
publish = false

[dependencies]
regex = "*"
console = "*"
chrono = "*"
dirs = "*"
serde = { version = "*", features = ["derive"] }
toml = "*"
