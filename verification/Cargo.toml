[package]
name = "botcore"
version = "0.1.0"
edition = "2021"
publish = false

[dependencies]
chrono = "*"
timer = "*"
toml = "*"
serde = "*"
serde_derive = "*"
